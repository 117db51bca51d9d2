//! The pre-commit hook: where it is, whether it can run, and what it
//! reports. Starting it and reading its output is the front end's work.
use vstd::prelude::*;
use vstd::utf8::{valid_utf8, decode_utf8};
use crate::error::CqError;
use crate::text::{join_path, join_path_str, trim, trim_str, utf8_to_string};

verus! {

/// What the running hook reports.
#[derive(Debug, PartialEq, Eq)]
pub enum HookEvent {
    /// A line of output (stdout or stderr) from the hook.
    Output(String),
    /// The hook ended; whether it succeeded and how long it ran, in
    /// nanoseconds.
    Finished { success: bool, elapsed_nanos: u64 },
}

impl HookEvent {
    /// The event that ends a hook run: `run_result` is the hook's exit
    /// success, or `None` when it could not be run at all, which counts as a
    /// failure.
    pub fn finished(run_result: Option<bool>, elapsed_nanos: u64) -> (e: HookEvent)
        ensures
            e == (HookEvent::Finished {
                success: run_result == Some(true),
                elapsed_nanos,
            }),
    {
        let success = match run_result {
            Some(s) => s,
            None => false,
        };
        HookEvent::Finished { success, elapsed_nanos }
    }
}

/// The hook's path below the repository root.
pub open spec fn hook_rel_path() -> Seq<char> {
    ".git/hooks/pre-commit"@
}

/// Whether a Unix file mode lets anybody execute the file.
pub open spec fn is_executable_mode(mode: u32) -> bool {
    mode & 0o111u32 != 0
}

/// Where the pre-commit hook would be, from the exit status and output of
/// `git rev-parse --show-toplevel`.
pub fn hook_path(success: bool, stdout: &[u8]) -> (r: Option<String>)
    ensures
        r is Some <==> success && valid_utf8(stdout@),
        r matches Some(p) ==> p@ == join_path(trim(decode_utf8(stdout@)), hook_rel_path()),
{
    if !success {
        return None;
    }
    match utf8_to_string(stdout) {
        Ok(s) => {
            let root = trim_str(s.as_str());
            Some(join_path_str(root.as_str(), ".git/hooks/pre-commit"))
        },
        Err(_) => None,
    }
}

/// The hook to run: the path, when the file exists and its mode (`None`
/// when it could not be read) lets it be executed.
pub fn find_pre_commit_hook(path: String, exists: bool, mode: Option<u32>) -> (r: Option<String>)
    ensures
        r is Some <==> (exists && (mode matches Some(m) && is_executable_mode(m))),
        r matches Some(p) ==> p@ == path@,
{
    if !exists {
        return None;
    }
    match mode {
        Some(m) => {
            if m & 0o111u32 == 0 {
                None
            } else {
                Some(path)
            }
        },
        None => None,
    }
}

/// The directory the hook runs in: the trimmed output of `git rev-parse
/// --show-toplevel`, which must be UTF-8.
pub fn hook_root(stdout: &[u8]) -> (r: Result<String, CqError>)
    ensures
        r is Ok <==> valid_utf8(stdout@),
        r matches Ok(s) ==> s@ == trim(decode_utf8(stdout@)),
        r matches Err(e) ==> e is InvalidUtf8,
{
    match utf8_to_string(stdout) {
        Ok(s) => Ok(trim_str(s.as_str())),
        Err(e) => Err(CqError::InvalidUtf8(e)),
    }
}

} // verus!

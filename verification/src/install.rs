//! Setting up and removing the global git alias that makes `git commit` run
//! this editor. Running `which` and `git config` is the front end's work.
use vstd::prelude::*;
use vstd::utf8::{valid_utf8, decode_utf8};
use crate::error::CqError;
use crate::text::{push_str, trim, trim_str, utf8_to_string};

verus! {

/// The alias value for the binary found at `path`: a shell alias running it.
pub open spec fn alias_for(path: Seq<char>) -> Seq<char> {
    seq!['!'] + path
}

/// The alias value, from the exit status and output of `which cq`: the
/// trimmed path behind a `!`.
pub fn alias_value(which_success: bool, stdout: &[u8]) -> (r: Result<String, CqError>)
    ensures
        r is Ok <==> which_success && valid_utf8(stdout@),
        r matches Ok(a) ==> a@ == alias_for(trim(decode_utf8(stdout@))),
        !which_success ==> r == Err::<String, CqError>(CqError::BinaryNotFound),
        which_success && !valid_utf8(stdout@) ==> (r matches Err(e) && e is InvalidUtf8),
{
    if !which_success {
        return Err(CqError::BinaryNotFound);
    }
    match utf8_to_string(stdout) {
        Ok(s) => {
            let path = trim_str(s.as_str());
            let mut a = "!".to_owned();
            push_str(&mut a, path.as_str());
            proof {
                reveal_strlit("!");
                assert(a@ =~= alias_for(path@));
            }
            Ok(a)
        },
        Err(e) => Err(CqError::InvalidUtf8(e)),
    }
}

/// The arguments of `git config` that set the global `commit` alias.
pub fn install_args(alias: &str) -> (r: Vec<String>)
    ensures
        r.deep_view() == seq!["config"@, "--global"@, "alias.commit"@, alias@],
{
    let mut r: Vec<String> = Vec::new();
    r.push("config".to_owned());
    r.push("--global".to_owned());
    r.push("alias.commit".to_owned());
    r.push(alias.to_owned());
    assert(r.deep_view() =~= seq!["config"@, "--global"@, "alias.commit"@, alias@]);
    r
}

/// The outcome of setting the alias: the lines to print on success, an
/// error when `git config` failed.
pub fn install(config_success: bool, alias: &str) -> (r: Result<Vec<String>, CqError>)
    ensures
        r is Ok <==> config_success,
        r matches Ok(v) ==> v.deep_view() == seq![
            "Installed: git commit → cq"@,
            "Alias set to: "@ + alias@,
        ],
        r matches Err(e) ==> e == CqError::AliasFailed,
{
    if !config_success {
        return Err(CqError::AliasFailed);
    }
    let mut second = "Alias set to: ".to_owned();
    push_str(&mut second, alias);
    let mut r: Vec<String> = Vec::new();
    r.push("Installed: git commit → cq".to_owned());
    r.push(second);
    assert(r.deep_view() =~= seq!["Installed: git commit → cq"@, "Alias set to: "@ + alias@]);
    Ok(r)
}

/// The arguments of `git config` that remove the global `commit` alias.
pub fn uninstall_args() -> (r: Vec<String>)
    ensures
        r.deep_view() == seq!["config"@, "--global"@, "--unset"@, "alias.commit"@],
{
    let mut r: Vec<String> = Vec::new();
    r.push("config".to_owned());
    r.push("--global".to_owned());
    r.push("--unset".to_owned());
    r.push("alias.commit".to_owned());
    assert(r.deep_view() =~= seq!["config"@, "--global"@, "--unset"@, "alias.commit"@]);
    r
}

/// What to print after removing the alias: `git config --unset` fails when
/// no alias was set, which is no error.
pub fn uninstall(unset_success: bool) -> (m: String)
    ensures
        m@ == if unset_success {
            "Removed global git commit alias."@
        } else {
            "No global commit alias was set (nothing to remove)."@
        },
{
    if !unset_success {
        "No global commit alias was set (nothing to remove).".to_owned()
    } else {
        "Removed global git commit alias.".to_owned()
    }
}

} // verus!

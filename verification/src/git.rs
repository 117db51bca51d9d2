//! What the editor makes of git's answers: the arguments it passes to git and
//! how it reads git's exit status and output. Running git is the front end's
//! work; these functions take what came back.
use vstd::prelude::*;
use vstd::utf8::{valid_utf8, decode_utf8};
use crate::error::CqError;
use crate::text::{
    decimal, decimal_string, join, join_path, join_path_str, join_strings, lines, push_str, split_lines,
    trim, trim_str, utf8_lossy, utf8_to_string, utf8_to_string_lossy,
};

verus! {

/// Whether a line of a commit template is a comment.
pub open spec fn is_comment(l: Seq<char>) -> bool {
    l.len() > 0 && l[0] == '#'
}

/// The trimmed text a successful program printed, when it is UTF-8 and not
/// blank.
pub open spec fn trimmed_output(success: bool, out: Seq<u8>) -> Option<Seq<char>> {
    if success && valid_utf8(out) && trim(decode_utf8(out)).len() > 0 {
        Some(trim(decode_utf8(out)))
    } else {
        None
    }
}

/// Where the commit template lives, given `git config commit.template`'s
/// answer: a leading `~/` stands for the home directory when it is known.
pub open spec fn template_path_spec(success: bool, out: Seq<u8>, home: Option<Seq<char>>) -> Option<
    Seq<char>,
> {
    match trimmed_output(success, out) {
        None => None,
        Some(raw) => Some(
            if raw.len() >= 2 && raw[0] == '~' && raw[1] == '/' {
                match home {
                    Some(h) => join_path(h, raw.skip(2)),
                    None => raw,
                }
            } else {
                raw
            },
        ),
    }
}

/// The message a commit template yields: its lines without the comment
/// lines, joined and trimmed; nothing when that is blank.
pub open spec fn template_spec(content: Seq<char>) -> Option<Seq<char>> {
    let kept = lines(content).filter(|l: Seq<char>| !is_comment(l));
    let t = trim(join(kept, seq!['\n']));
    if t.len() == 0 {
        None
    } else {
        Some(t)
    }
}

/// Whether the work tree check succeeded: `git rev-parse
/// --is-inside-work-tree` exits with success exactly inside a work tree.
pub fn ensure_in_repo(status_success: bool) -> (r: Result<(), CqError>)
    ensures
        r is Ok <==> status_success,
        r matches Err(e) ==> e == CqError::NotInRepo,
{
    if !status_success {
        return Err(CqError::NotInRepo);
    }
    Ok(())
}

/// Whether changes are staged, from the exit code of `git diff --cached
/// --quiet`: 1 when the index differs from `HEAD`, 0 when it does not. Any
/// other outcome (another code, or none when git was killed by a signal) is a
/// failure of git itself, not a sign of staged changes.
pub fn has_staged_changes(exit_code: Option<i32>) -> (r: Result<bool, CqError>)
    ensures
        r == (match exit_code {
            Some(1) => Ok(true),
            Some(0) => Ok(false),
            _ => Err::<bool, CqError>(CqError::StagedCheckFailed),
        }),
{
    match exit_code {
        Some(1) => Ok(true),
        Some(0) => Ok(false),
        _ => Err(CqError::StagedCheckFailed),
    }
}

/// Refuses to go on when nothing is staged.
pub fn require_staged_changes(has_staged: bool) -> (r: Result<(), CqError>)
    ensures
        r is Ok <==> has_staged,
        r matches Err(e) ==> e == CqError::NothingStaged,
{
    if !has_staged {
        return Err(CqError::NothingStaged);
    }
    Ok(())
}

/// The trimmed output of a successful program, when it is UTF-8 and not
/// blank.
fn trimmed_stdout(success: bool, stdout: &[u8]) -> (r: Option<String>)
    ensures
        r matches Some(s) ==> trimmed_output(success, stdout@) == Some(s@),
        r is None ==> trimmed_output(success, stdout@) is None,
{
    if !success {
        return None;
    }
    match utf8_to_string(stdout) {
        Ok(s) => {
            let t = trim_str(s.as_str());
            if t.as_str().is_empty() {
                None
            } else {
                Some(t)
            }
        },
        Err(_) => None,
    }
}

/// Where the commit template lives, from the exit status and output of `git
/// config commit.template` and the home directory.
pub fn commit_template_path(config_success: bool, stdout: &[u8], home: Option<&str>) -> (r: Option<
    String,
>)
    ensures
        r matches Some(p) ==> template_path_spec(
            config_success,
            stdout@,
            match home {
                Some(h) => Some(h@),
                None => None,
            },
        ) == Some(p@),
        r is None ==> template_path_spec(
            config_success,
            stdout@,
            match home {
                Some(h) => Some(h@),
                None => None,
            },
        ) is None,
{
    let raw = match trimmed_stdout(config_success, stdout) {
        Some(raw) => raw,
        None => return None,
    };
    let cs = crate::text::chars_of(raw.as_str());
    if cs.len() >= 2 && cs[0] == '~' && cs[1] == '/' {
        match home {
            Some(h) => {
                let rest = crate::text::string_of_range(&cs, 2, cs.len());
                assert(cs@.subrange(2, cs@.len() as int) =~= raw@.skip(2));
                Some(join_path_str(h, rest.as_str()))
            },
            None => Some(raw),
        }
    } else {
        Some(raw)
    }
}

/// The message a commit template yields: comment lines (starting with `#`)
/// dropped, the rest joined and trimmed; `None` when nothing is left.
pub fn commit_template(content: &str) -> (r: Option<String>)
    ensures
        r matches Some(t) ==> template_spec(content@) == Some(t@),
        r is None ==> template_spec(content@) is None,
{
    let ls = split_lines(content);
    let ghost all = ls.deep_view();
    let ghost pred = |l: Seq<char>| !is_comment(l);
    let mut kept: Vec<String> = Vec::new();
    let n = ls.len();
    let mut i: usize = 0;
    proof {
        reveal(Seq::filter);
        assert(all.take(0) =~= Seq::<Seq<char>>::empty());
        assert(kept.deep_view() =~= all.take(0).filter(pred));
    }
    while i < n
        invariant
            i <= n == ls@.len(),
            all == ls.deep_view(),
            pred == (|l: Seq<char>| !is_comment(l)),
            kept.deep_view() == all.take(i as int).filter(pred),
        decreases n - i,
    {
        let cur = ls[i].as_str();
        let first_is_hash = crate::text::starts_with_char(cur, '#');
        assert(cur@ == ls[i as int]@);
        assert(first_is_hash == is_comment(ls[i as int]@));
        let ghost before = kept.deep_view();
        proof {
            reveal(Seq::filter);
            assert(all.take(i + 1).drop_last() =~= all.take(i as int));
            assert(all.take(i + 1).last() == ls[i as int]@);
        }
        assert(all[i as int] == ls[i as int]@);
        assert(pred(all[i as int]) == !first_is_hash);
        if !first_is_hash {
            let l = ls[i].clone();
            kept.push(l);
            assert(kept.deep_view() =~= before.push(ls[i as int]@));
        }
        proof {
            reveal(Seq::filter);
            assert(kept.deep_view() =~= all.take(i + 1).filter(pred));
        }
        i = i + 1;
    }
    assert(all.take(n as int) =~= all);
    let joined = join_strings(&kept, "\n");
    proof {
        reveal_strlit("\n");
        assert("\n"@ =~= seq!['\n']);
    }
    let t = trim_str(joined.as_str());
    if t.as_str().is_empty() {
        None
    } else {
        Some(t)
    }
}

/// The last commit's message (for amending), from the exit status and
/// output of `git log -1 --format=%B`: trimmed, and `None` when git failed,
/// the output is not UTF-8 or it is blank.
pub fn last_commit_message(success: bool, stdout: &[u8]) -> (r: Option<String>)
    ensures
        r matches Some(s) ==> trimmed_output(success, stdout@) == Some(s@),
        r is None ==> trimmed_output(success, stdout@) is None,
{
    trimmed_stdout(success, stdout)
}

/// The arguments of `git log` that list the last `n` commits on one line
/// each: `log -<n> --format=%h %s`.
pub fn recent_commits_args(n: usize) -> (r: Vec<String>)
    ensures
        r.deep_view() == seq!["log"@, seq!['-'] + decimal(n as nat), "--format=%h %s"@],
{
    let mut count = "-".to_owned();
    push_str(&mut count, decimal_string(n).as_str());
    proof {
        reveal_strlit("-");
        assert(count@ =~= seq!['-'] + decimal(n as nat));
    }
    let mut r: Vec<String> = Vec::new();
    r.push("log".to_owned());
    r.push(count);
    r.push("--format=%h %s".to_owned());
    assert(r.deep_view() =~= seq!["log"@, seq!['-'] + decimal(n as nat), "--format=%h %s"@]);
    r
}

/// The recent commits, one summary per line of `git log`'s output; none
/// when git could not be run or failed.
pub fn recent_commits(success: bool, stdout: &[u8]) -> (r: Vec<String>)
    ensures
        r.deep_view() == if success {
            lines(utf8_lossy(stdout@))
        } else {
            Seq::empty()
        },
{
    if success {
        let text = utf8_to_string_lossy(stdout);
        split_lines(text.as_str())
    } else {
        let r: Vec<String> = Vec::new();
        assert(r.deep_view() =~= Seq::<Seq<char>>::empty());
        r
    }
}

/// The staged files, one `git diff --cached --name-status` line each (such
/// as `M  src/main.rs`); an error when git failed.
pub fn staged_files(success: bool, stdout: &[u8]) -> (r: Result<Vec<String>, CqError>)
    ensures
        r is Ok <==> success,
        r matches Ok(v) ==> v.deep_view() == lines(utf8_lossy(stdout@)),
        r matches Err(e) ==> e == CqError::StagedListFailed,
{
    if !success {
        return Err(CqError::StagedListFailed);
    }
    let text = utf8_to_string_lossy(stdout);
    Ok(split_lines(text.as_str()))
}

/// The arguments of the final `git commit`: hooks are skipped (they already
/// ran), the message is given with `-m`, and the extra arguments follow.
pub fn commit_args(message: &str, extra_args: &Vec<String>) -> (r: Vec<String>)
    ensures
        r.deep_view() == seq!["commit"@, "--no-verify"@, "-m"@, message@] + extra_args.deep_view(),
{
    let mut r: Vec<String> = Vec::new();
    r.push("commit".to_owned());
    r.push("--no-verify".to_owned());
    r.push("-m".to_owned());
    r.push(message.to_owned());
    let ghost head = r.deep_view();
    assert(head =~= seq!["commit"@, "--no-verify"@, "-m"@, message@]);
    let n = extra_args.len();
    let mut i: usize = 0;
    while i < n
        invariant
            i <= n == extra_args@.len(),
            r.deep_view() == head + extra_args.deep_view().take(i as int),
        decreases n - i,
    {
        let ghost before = r.deep_view();
        r.push(extra_args[i].clone());
        assert(r.deep_view() =~= before.push(extra_args[i as int]@));
        assert(extra_args.deep_view().take(i + 1) =~= extra_args.deep_view().take(i as int).push(
            extra_args[i as int]@,
        ));
        i = i + 1;
        assert(r.deep_view() =~= head + extra_args.deep_view().take(i as int));
    }
    assert(extra_args.deep_view().take(n as int) =~= extra_args.deep_view());
    r
}

/// The outcome of `git commit`: its standard output on success, otherwise
/// an error carrying its standard error.
pub fn commit(success: bool, stdout: &[u8], stderr: &[u8]) -> (r: Result<String, CqError>)
    ensures
        r is Ok <==> success,
        r matches Ok(s) ==> s@ == utf8_lossy(stdout@),
        r matches Err(e) ==> e matches CqError::CommitFailed(m) && m@ == utf8_lossy(stderr@),
{
    if !success {
        let msg = utf8_to_string_lossy(stderr);
        return Err(CqError::CommitFailed(msg));
    }
    Ok(utf8_to_string_lossy(stdout))
}

} // verus!

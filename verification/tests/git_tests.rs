use cq::error::CqError;
use cq::git;
use cq::hook::{self, HookEvent};
use cq::install;

#[test]
fn repo_check() {
    assert!(git::ensure_in_repo(true).is_ok());
    let e = git::ensure_in_repo(false).unwrap_err();
    assert!(matches!(e, CqError::NotInRepo));
    assert_eq!(e.message(), "Not inside a git repository");
}

#[test]
fn staged_changes_from_diff_status() {
    assert!(git::has_staged_changes(Some(1)).unwrap());
    assert!(!git::has_staged_changes(Some(0)).unwrap());
    let e = git::has_staged_changes(Some(128)).unwrap_err();
    assert!(matches!(e, CqError::StagedCheckFailed));
    assert_eq!(e.message(), "Failed to check for staged changes");
    assert!(matches!(git::has_staged_changes(None), Err(CqError::StagedCheckFailed)));
    assert!(git::require_staged_changes(true).is_ok());
    let e = git::require_staged_changes(false).unwrap_err();
    assert_eq!(e.message(), "Nothing to commit (no staged changes). Use `git add` first.");
}

#[test]
fn template_drops_comments_and_trims() {
    let t = git::commit_template("# comment\nfix: thing\n# another\n\nBody\n\n");
    assert_eq!(t, Some("fix: thing\n\nBody".to_string()));
    assert_eq!(git::commit_template("# only\n#comments\n"), None);
    assert_eq!(git::commit_template(""), None);
    assert_eq!(git::commit_template(" #indented\n"), Some("#indented".to_string()));
}

#[test]
fn template_path_resolution() {
    assert_eq!(
        git::commit_template_path(true, b"~/tmpl.txt\n", Some("/home/u")),
        Some("/home/u/tmpl.txt".to_string())
    );
    assert_eq!(git::commit_template_path(true, b"~/tmpl.txt\n", None), Some("~/tmpl.txt".to_string()));
    assert_eq!(git::commit_template_path(true, b"/etc/t\n", Some("/home/u")), Some("/etc/t".to_string()));
    assert_eq!(git::commit_template_path(false, b"/etc/t\n", None), None);
    assert_eq!(git::commit_template_path(true, b"  \n", None), None);
    assert_eq!(git::commit_template_path(true, &[0xff, 0xfe], None), None);
}

#[test]
fn last_message() {
    assert_eq!(git::last_commit_message(true, b"fix: a\n\nbody\n\n"), Some("fix: a\n\nbody".to_string()));
    assert_eq!(git::last_commit_message(true, b"\n"), None);
    assert_eq!(git::last_commit_message(false, b"fix"), None);
    assert_eq!(git::last_commit_message(true, &[0xc3]), None);
}

#[test]
fn recent_commit_listing() {
    assert_eq!(git::recent_commits_args(5), vec!["log", "-5", "--format=%h %s"]);
    assert_eq!(git::recent_commits_args(12), vec!["log", "-12", "--format=%h %s"]);
    assert_eq!(git::recent_commits(true, b"abc one\ndef two\n"), vec!["abc one", "def two"]);
    assert!(git::recent_commits(false, b"abc one\n").is_empty());
}

#[test]
fn staged_file_listing() {
    let files = git::staged_files(true, b"M\tsrc/main.rs\nA\tnew.rs\n").unwrap();
    assert_eq!(files, vec!["M\tsrc/main.rs", "A\tnew.rs"]);
    let lossy = git::staged_files(true, &[b'M', b'\t', 0xff]).unwrap();
    assert_eq!(lossy, vec!["M\t\u{fffd}"]);
    let e = git::staged_files(false, b"").unwrap_err();
    assert_eq!(e.message(), "Failed to list staged files");
}

#[test]
fn commit_invocation() {
    let args = git::commit_args("fix: x", &vec!["--amend".to_string(), "--signoff".to_string()]);
    assert_eq!(args, vec!["commit", "--no-verify", "-m", "fix: x", "--amend", "--signoff"]);
    assert_eq!(git::commit(true, b"[main 1a2b] fix: x\n", b"").unwrap(), "[main 1a2b] fix: x\n");
    let e = git::commit(false, b"", b"boom").unwrap_err();
    assert_eq!(e.message(), "git commit failed: boom");
}

#[test]
fn hook_location_and_permissions() {
    assert_eq!(hook::hook_path(true, b"/repo\n"), Some("/repo/.git/hooks/pre-commit".to_string()));
    assert_eq!(hook::hook_path(false, b"/repo\n"), None);
    assert_eq!(hook::hook_path(true, &[0xff]), None);
    let p = "/repo/.git/hooks/pre-commit".to_string();
    assert_eq!(hook::find_pre_commit_hook(p.clone(), true, Some(0o100755)), Some(p.clone()));
    assert_eq!(hook::find_pre_commit_hook(p.clone(), true, Some(0o100010)), Some(p.clone()));
    assert_eq!(hook::find_pre_commit_hook(p.clone(), true, Some(0o100644)), None);
    assert_eq!(hook::find_pre_commit_hook(p.clone(), true, None), None);
    assert_eq!(hook::find_pre_commit_hook(p, false, Some(0o755)), None);
}

#[test]
fn hook_root_and_finish() {
    assert_eq!(hook::hook_root(b" /repo \n").unwrap(), "/repo");
    let e = hook::hook_root(&[0xff, 0x00]).unwrap_err();
    assert!(matches!(e, CqError::InvalidUtf8(_)));
    assert!(!e.message().is_empty());
    assert_eq!(HookEvent::finished(None, 7), HookEvent::Finished { success: false, elapsed_nanos: 7 });
    assert_eq!(HookEvent::finished(Some(true), 7), HookEvent::Finished { success: true, elapsed_nanos: 7 });
    assert_eq!(HookEvent::finished(Some(false), 7), HookEvent::Finished { success: false, elapsed_nanos: 7 });
}

#[test]
fn alias_installation() {
    assert_eq!(install::alias_value(true, b"/usr/local/bin/cq\n").unwrap(), "!/usr/local/bin/cq");
    let e = install::alias_value(false, b"").unwrap_err();
    assert_eq!(e.message(), "cq binary not found in PATH. Install it first (cargo install --path .)");
    assert!(matches!(install::alias_value(true, &[0xff]), Err(CqError::InvalidUtf8(_))));
    assert_eq!(install::install_args("!/bin/cq"), vec!["config", "--global", "alias.commit", "!/bin/cq"]);
    assert_eq!(
        install::install(true, "!/bin/cq").unwrap(),
        vec!["Installed: git commit → cq", "Alias set to: !/bin/cq"]
    );
    assert_eq!(install::install(false, "!/bin/cq").unwrap_err().message(), "Failed to set global git alias");
}

#[test]
fn alias_removal() {
    assert_eq!(install::uninstall_args(), vec!["config", "--global", "--unset", "alias.commit"]);
    assert_eq!(install::uninstall(true), "Removed global git commit alias.");
    assert_eq!(install::uninstall(false), "No global commit alias was set (nothing to remove).");
}

//! Errors that stop the editor, with the text shown for each.
use vstd::prelude::*;
use std::string::FromUtf8Error;
use crate::text::push_str;

verus! {

#[verifier::external_type_specification]
#[verifier::external_body]
pub struct ExFromUtf8Error(FromUtf8Error);

/// Why the editor gave up.
#[derive(Debug)]
pub enum CqError {
    /// Not inside a git work tree.
    NotInRepo,
    /// Nothing is staged and the commit needs staged changes.
    NothingStaged,
    /// `git diff --cached --quiet` failed instead of answering.
    StagedCheckFailed,
    /// `git diff --cached --name-status` failed.
    StagedListFailed,
    /// `git commit` failed; its standard error.
    CommitFailed(String),
    /// The `cq` binary is not on the `PATH`.
    BinaryNotFound,
    /// `git config` could not set the alias.
    AliasFailed,
    /// A program's output was not UTF-8.
    InvalidUtf8(FromUtf8Error),
}

/// The text of a UTF-8 decoding error (its `Display`).
#[verifier::external_body]
fn utf8_error_text(e: &FromUtf8Error) -> String {
    e.to_string()
}

/// The text shown for an error, when it does not come from a UTF-8 error.
pub open spec fn error_text(e: CqError) -> Seq<char> {
    match e {
        CqError::NotInRepo => "Not inside a git repository"@,
        CqError::NothingStaged => "Nothing to commit (no staged changes). Use `git add` first."@,
        CqError::StagedCheckFailed => "Failed to check for staged changes"@,
        CqError::StagedListFailed => "Failed to list staged files"@,
        CqError::CommitFailed(stderr) => "git commit failed: "@ + stderr@,
        CqError::BinaryNotFound => "cq binary not found in PATH. Install it first (cargo install --path .)"@,
        CqError::AliasFailed => "Failed to set global git alias"@,
        CqError::InvalidUtf8(_) => Seq::empty(),
    }
}

impl CqError {
    /// The text shown for this error.
    pub fn message(&self) -> (m: String)
        ensures
            !(*self is InvalidUtf8) ==> m@ == error_text(*self),
    {
        match self {
            CqError::NotInRepo => "Not inside a git repository".to_owned(),
            CqError::NothingStaged => "Nothing to commit (no staged changes). Use `git add` first.".to_owned(),
            CqError::StagedCheckFailed => "Failed to check for staged changes".to_owned(),
            CqError::StagedListFailed => "Failed to list staged files".to_owned(),
            CqError::CommitFailed(stderr) => {
                let mut m = "git commit failed: ".to_owned();
                push_str(&mut m, stderr.as_str());
                m
            },
            CqError::BinaryNotFound => "cq binary not found in PATH. Install it first (cargo install --path .)".to_owned(),
            CqError::AliasFailed => "Failed to set global git alias".to_owned(),
            CqError::InvalidUtf8(e) => utf8_error_text(e),
        }
    }
}

} // verus!

//! Decision logic of a terminal commit-message editor that lets the user type
//! while the pre-commit hook runs in the background.

pub mod app;
pub mod error;
pub mod git;
pub mod hook;
pub mod install;
pub mod key;
pub mod laws;
pub mod text;
pub mod textarea;
pub mod ui;

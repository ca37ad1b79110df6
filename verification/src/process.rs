//! Command lines for other programs, and how a program that was run ended.

use vstd::prelude::*;

verus! {

/// A program and its arguments.
#[derive(Debug)]
pub struct CommandLine {
    pub program: String,
    pub args: Vec<String>,
}

/// The texts of a list of strings.
pub open spec fn texts(strings: Seq<String>) -> Seq<Seq<char>> {
    strings.map_values(|s: String| s@)
}

/// How a program that was run for its exit status ended.
#[derive(Debug, Clone, Copy, PartialEq, Eq, Structural)]
pub enum Exit {
    /// The program could not be started.
    NotRun,
    /// The program ran. `code` is its exit code, if it has one.
    Exited { success: bool, code: Option<i32> },
}

/// How a program that was run for its output ended.
#[derive(Debug)]
pub enum Captured {
    /// The program could not be started.
    NotRun,
    /// The program ran and wrote these texts.
    Exited { success: bool, stdout: String, stderr: String },
}

} // verus!

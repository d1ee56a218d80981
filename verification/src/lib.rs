//! Best-effort sandboxed runner for untrusted evaluation.
//!
//! The engine runs commands, test suites, file reads and patch applications
//! inside a workspace root, enforcing path containment, a wall-clock deadline
//! and best-effort resource ceilings, and reports every result as one uniform
//! [`outcome::Outcome`] record.
//!
//! This crate holds the decision logic: path validation, patch-header
//! scanning, the deadline/polling rules, the patch-apply strategy chain, and
//! the construction of outcome records. The surrounding binary performs the
//! actual filesystem, process and signal work and feeds the observed plain
//! values back into these functions.

use vstd::prelude::*;

pub mod apply;
pub mod exec;
pub mod outcome;
pub mod patch;
pub mod paths;

verus! {

/// The kinds of failure the engine itself can report (as opposed to a child
/// process failing on its own).
#[derive(Clone, Copy, PartialEq, Eq, Structural, Debug)]
pub enum ErrorKind {
    /// The workspace root is missing or is not a directory.
    InvalidRoot,
    /// A file argument is absolute, contains a null byte, or escapes the root.
    UnsafePath,
    /// A diff header names an absolute, traversing or foreign-separator path.
    UnsafePatchPath,
    /// The child process could not be launched at all.
    SpawnFailure,
    /// A read or write on a file or a standard stream failed.
    IoFailure,
}

/// An engine-level failure: a kind plus the message that the caller will see
/// in the `stderr` field of the sentinel outcome record.
#[derive(Clone, PartialEq, Debug)]
pub struct SandboxError {
    pub kind: ErrorKind,
    pub message: String,
}

impl SandboxError {
    pub fn new(kind: ErrorKind, message: String) -> (e: SandboxError)
        ensures
            e.kind == kind,
            e.message == message,
    {
        SandboxError { kind, message }
    }
}

/// The closed set of operations the engine exposes. The dispatcher matches
/// on the variant and delegates; every variant produces exactly one
/// [`outcome::Outcome`] record.
#[derive(Clone, PartialEq, Debug)]
pub enum Operation {
    /// Run an arbitrary invocation: program name, then arguments.
    Run(Vec<String>),
    /// Run the fixed convenience invocation for the workspace's test suite.
    Pytest,
    /// Read a file named by a root-relative path; its text becomes the
    /// record's captured stdout.
    ReadFile(Vec<u8>),
    /// Apply this unified-diff text to the workspace.
    ApplyDiff(Vec<u8>),
}

} // verus!

//! Error taxonomy of the orchestrator core. Every payload is a plain value:
//! an errno is carried as its raw number, a cause as the text it printed.

use vstd::prelude::*;

verus! {

/// All failures that the orchestrator core can report.
#[derive(Debug)]
pub enum AppError {
    /// The profile failed to parse or was inconsistent.
    Config(String),
    /// Generic I/O with a human-readable context tag and a cause.
    Io(String, String),
    /// I/O tied to a specific path.
    File(String, String),
    /// Clearing close-on-exec failed: the descriptor and the errno.
    FdShareFailed(i32, i32),
    /// Pipe creation failed: the errno.
    PipeAlloc(i32),
    /// `fork`/`exec` failed: the program and the cause.
    Spawn(String, String),
    /// A call into the seccomp filter library failed.
    SeccompLib(String),
    /// A status event from `bwrap` could not be parsed or was unexpected.
    BwrapEvent(String),
    /// Opening a namespace file failed: the errno.
    NsOpen(i32),
    /// Resolving the parent user namespace failed: the errno.
    NsGetParent(i32),
    /// Entering a user namespace failed: the errno.
    NsEnter(i32),
    /// Reading a namespace inode failed: the errno.
    NsInode(i32),
    /// Caller-supplied usage error.
    BadArgs,
}

} // verus!

//! The ways in which an operation on the tree can fail.
use crate::probe::FileKind;
use vstd::prelude::*;

verus! {

#[derive(Clone, Debug, PartialEq, Eq)]
pub enum Error {
    /// A node was taken for one kind and is another.
    IncorrectFileType { path: String, expected: FileKind, found: FileKind },
    /// The path exists but is neither a regular file, a directory nor a
    /// symbolic link (a device, a socket, a FIFO).
    UnrecognizedFileType(String),
    /// No cached child of a directory has the path that was looked up.
    FileNotFound(String),
    /// The directory walk reported a failure.
    Ignore(String),
    /// A filesystem call failed; the operating system's message.
    Io(String),
    /// A failure passed on from a collaborating subsystem.
    Unknown(String),
}

} // verus!

//! What the filesystem reported, as plain values.
//!
//! The tree never touches the filesystem itself. A node says which call it
//! needs ([`Request`]); the caller performs it and hands the outcome back
//! ([`Fill`]). Failures arrive as the operating system's message.
use vstd::prelude::*;

verus! {

/// The type of a filesystem object, as its own metadata gives it
/// (links are not followed).
#[derive(Clone, Copy, Debug, PartialEq, Eq, Structural)]
pub enum FileKind {
    Directory,
    File,
    SymLink,
    /// Anything else: a device, a socket, a FIFO.
    Other,
}

/// The two facts that classify a path: its type and its canonical form.
#[derive(Debug, PartialEq, Eq)]
pub struct Probe {
    /// The type read from the path's metadata, or why it could not be read.
    pub kind: Result<FileKind, String>,
    /// The canonical form of the path, or why it could not be resolved.
    pub canonical: Result<String, String>,
}

/// One item of a depth-1 directory walk.
#[derive(Debug, PartialEq, Eq)]
pub enum WalkItem {
    /// A path the walk reached, at `depth` below the walked directory
    /// (0 for the directory itself), with its probe.
    Found { depth: usize, path: String, probe: Probe },
    /// The walk reported a failure here.
    Failed(String),
}

/// What a symbolic link's text was read as, and the probe of the path that
/// the text leads to.
#[derive(Debug, PartialEq, Eq)]
pub struct LinkTarget {
    pub text: String,
    pub probe: Probe,
}

/// The filesystem call that a node needs before its cache can be filled.
#[derive(Clone, Debug, PartialEq, Eq)]
pub enum Request {
    /// Walk this directory one level deep, probing each path reached.
    Walk(String),
    /// Read the bytes of this file.
    Read(String),
    /// Read the text of this link, then probe the path it leads to.
    ReadLink(String),
}

/// The outcome of a [`Request`].
#[derive(Debug, PartialEq, Eq)]
pub enum Fill {
    Walked(Vec<WalkItem>),
    Content(Result<Vec<u8>, String>),
    Link(Result<LinkTarget, String>),
}

impl Fill {
    /// The kind of node that this outcome is for.
    pub open spec fn spec_kind(self) -> FileKind {
        match self {
            Fill::Walked(_) => FileKind::Directory,
            Fill::Content(_) => FileKind::File,
            Fill::Link(_) => FileKind::SymLink,
        }
    }

    pub fn kind(&self) -> (r: FileKind)
        ensures
            r == self.spec_kind(),
    {
        match self {
            Fill::Walked(_) => FileKind::Directory,
            Fill::Content(_) => FileKind::File,
            Fill::Link(_) => FileKind::SymLink,
        }
    }
}

} // verus!

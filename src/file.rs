//! A regular file and its lazily read bytes.
use crate::directory::Directory;
use crate::entry::AsEntry;
use crate::error::Error;
use crate::probe::{FileKind, Fill, Request};
use vstd::prelude::*;

verus! {

#[derive(Debug)]
pub struct File {
    relative_path: String,
    full_path: String,
    content: Option<Vec<u8>>,
}

/// A file as a value: its two paths and, once read, its bytes.
pub struct FileView {
    pub relative_path: Seq<char>,
    pub full_path: Seq<char>,
    pub content: Option<Seq<u8>>,
}

impl View for File {
    type V = FileView;

    closed spec fn view(&self) -> FileView {
        FileView {
            relative_path: self.relative_path@,
            full_path: self.full_path@,
            content: match self.content {
                Some(b) => Some(b@),
                None => None,
            },
        }
    }
}

impl File {
    /// A file at the given paths whose bytes have not been read.
    pub(crate) fn new(relative_path: String, full_path: String) -> (r: File)
        ensures
            r@ == (FileView { relative_path: relative_path@, full_path: full_path@, content: None }),
    {
        File { relative_path, full_path, content: None }
    }

    /// The bytes read so far, if they have been.
    pub fn content(&self) -> (r: Option<&Vec<u8>>)
        ensures
            match r {
                Some(b) => self@.content == Some(b@),
                None => self@.content is None,
            },
    {
        match &self.content {
            Some(b) => Some(b),
            None => None,
        }
    }
}

impl AsEntry for File {
    open spec fn spec_relative_path(&self) -> Seq<char> {
        self@.relative_path
    }

    open spec fn spec_full_path(&self) -> Seq<char> {
        self@.full_path
    }

    open spec fn spec_populated(&self) -> bool {
        self@.content is Some
    }

    open spec fn spec_kind(&self) -> FileKind {
        FileKind::File
    }

    open spec fn requests(&self, req: Request) -> bool {
        req matches Request::Read(p) && p@ == self@.full_path
    }

    open spec fn fills(&self, fill: Fill, after: Self, r: Result<(), Error>) -> bool {
        if self@.content is Some {
            r is Ok && after == *self
        } else {
            match fill {
                Fill::Content(Ok(b)) => r is Ok && after@ == (FileView {
                    content: Some(b@),
                    ..self@
                }),
                Fill::Content(Err(m)) => r == Err::<(), Error>(Error::Io(m)) && after == *self,
                _ => after == *self && (r matches Err(Error::IncorrectFileType {
                    path,
                    expected,
                    found,
                }) && path@ == self@.relative_path && expected == fill.spec_kind() && found
                    == FileKind::File),
            }
        }
    }

    fn relative_path(&self) -> (r: &String) {
        &self.relative_path
    }

    fn full_path(&self) -> (r: &String) {
        &self.full_path
    }

    fn pending(&self) -> (r: Option<Request>) {
        match &self.content {
            Some(_) => None,
            None => Some(Request::Read(self.full_path.clone())),
        }
    }

    fn populate(&mut self, fill: Fill) -> (r: Result<(), Error>) {
        if self.content.is_some() {
            return Ok(());
        }
        let kind = fill.kind();
        match fill {
            Fill::Content(Ok(b)) => {
                self.content = Some(b);
                Ok(())
            },
            Fill::Content(Err(m)) => Err(Error::Io(m)),
            _ => Err(
                Error::IncorrectFileType {
                    path: self.relative_path.clone(),
                    expected: kind,
                    found: FileKind::File,
                },
            ),
        }
    }

    fn parent(&self) -> (r: Result<Option<Directory>, Error>) {
        Ok(Directory::parent_of_path(&self.full_path))
    }
}

} // verus!

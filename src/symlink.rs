//! A symbolic link and the entry it leads to, followed one hop on demand.
use crate::directory::Directory;
use crate::entry::{classifies, fails_with, AsEntry, Entry};
use crate::error::Error;
use crate::path::{link_target_path, target_of_link};
use crate::probe::{FileKind, Fill, Request};
use vstd::prelude::*;

verus! {

#[derive(Debug)]
pub struct SymLink {
    relative_path: String,
    full_path: String,
    target: Option<Box<Entry>>,
}

/// A link as a value: its two paths and, once followed, its target.
pub struct SymLinkView {
    pub relative_path: Seq<char>,
    pub full_path: Seq<char>,
    pub target: Option<Entry>,
}

impl View for SymLink {
    type V = SymLinkView;

    closed spec fn view(&self) -> SymLinkView {
        SymLinkView {
            relative_path: self.relative_path@,
            full_path: self.full_path@,
            target: match self.target {
                Some(e) => Some(*e),
                None => None,
            },
        }
    }
}

impl SymLink {
    /// A link at the given paths that has not been followed.
    pub(crate) fn new(relative_path: String, full_path: String) -> (r: SymLink)
        ensures
            r@ == (SymLinkView { relative_path: relative_path@, full_path: full_path@, target: None }),
    {
        SymLink { relative_path, full_path, target: None }
    }

    /// The entry the link leads to, once it has been followed.
    pub fn link(&self) -> (r: Option<&Entry>)
        ensures
            match r {
                Some(e) => self@.target == Some(*e),
                None => self@.target is None,
            },
    {
        match &self.target {
            Some(e) => Some(e),
            None => None,
        }
    }

    /// The path that the link text `text` leads to from this link.
    pub fn target_path(&self, text: &str) -> (r: String)
        ensures
            r@ == target_of_link(self@.relative_path, text@),
    {
        link_target_path(&self.relative_path, text)
    }
}

impl AsEntry for SymLink {
    open spec fn spec_relative_path(&self) -> Seq<char> {
        self@.relative_path
    }

    open spec fn spec_full_path(&self) -> Seq<char> {
        self@.full_path
    }

    open spec fn spec_populated(&self) -> bool {
        self@.target is Some
    }

    open spec fn spec_kind(&self) -> FileKind {
        FileKind::SymLink
    }

    open spec fn requests(&self, req: Request) -> bool {
        req matches Request::ReadLink(p) && p@ == self@.relative_path
    }

    open spec fn fills(&self, fill: Fill, after: Self, r: Result<(), Error>) -> bool {
        if self@.target is Some {
            r is Ok && after == *self
        } else {
            match fill {
                Fill::Link(Ok(t)) => {
                    let p = target_of_link(self@.relative_path, t.text@);
                    if classifies(t.probe) {
                        &&& r is Ok
                        &&& after@.relative_path == self@.relative_path
                        &&& after@.full_path == self@.full_path
                        &&& after@.target matches Some(e) && e.is_entry_for(p, t.probe)
                    } else {
                        after == *self && (r matches Err(e) && fails_with(p, t.probe, e))
                    }
                },
                Fill::Link(Err(m)) => r == Err::<(), Error>(Error::Io(m)) && after == *self,
                _ => after == *self && (r matches Err(Error::IncorrectFileType {
                    path,
                    expected,
                    found,
                }) && path@ == self@.relative_path && expected == fill.spec_kind() && found
                    == FileKind::SymLink),
            }
        }
    }

    fn relative_path(&self) -> (r: &String) {
        &self.relative_path
    }

    fn full_path(&self) -> (r: &String) {
        &self.full_path
    }

    fn pending(&self) -> (r: Option<Request>) {
        match &self.target {
            Some(_) => None,
            None => Some(Request::ReadLink(self.relative_path.clone())),
        }
    }

    fn populate(&mut self, fill: Fill) -> (r: Result<(), Error>) {
        if self.target.is_some() {
            return Ok(());
        }
        let kind = fill.kind();
        match fill {
            Fill::Link(Ok(t)) => {
                let p = link_target_path(&self.relative_path, &t.text);
                let e = Entry::classify(&p, &t.probe)?;
                self.target = Some(Box::new(e));
                Ok(())
            },
            Fill::Link(Err(m)) => Err(Error::Io(m)),
            _ => Err(
                Error::IncorrectFileType {
                    path: self.relative_path.clone(),
                    expected: kind,
                    found: FileKind::SymLink,
                },
            ),
        }
    }

    fn parent(&self) -> (r: Result<Option<Directory>, Error>) {
        Ok(Directory::parent_of_path(&self.full_path))
    }
}

} // verus!

//! The node of the tree: one of the three kinds, with its parent directory.
use crate::directory::{is_parent_directory, Directory};
use crate::error::Error;
use crate::file::File;
use crate::probe::{FileKind, Fill, Probe, Request};
use crate::symlink::SymLink;
use vstd::prelude::*;

verus! {

/// What every kind of node offers: its two paths, the directory above it,
/// and the filling of its cache.
pub trait AsEntry: Sized {
    /// The path as the caller gave it, used for display.
    spec fn spec_relative_path(&self) -> Seq<char>;

    /// The canonical path, the node's identity.
    spec fn spec_full_path(&self) -> Seq<char>;

    /// Whether the node's cache has been filled.
    spec fn spec_populated(&self) -> bool;

    /// The kind of node this is.
    spec fn spec_kind(&self) -> FileKind;

    /// `req` is the filesystem call that this node's cache waits for.
    spec fn requests(&self, req: Request) -> bool;

    /// `after` and `r` are what populating this node with `fill` gives.
    spec fn fills(&self, fill: Fill, after: Self, r: Result<(), Error>) -> bool;

    fn relative_path(&self) -> (r: &String)
        ensures
            r@ == self.spec_relative_path(),
    ;

    fn full_path(&self) -> (r: &String)
        ensures
            r@ == self.spec_full_path(),
    ;

    /// The filesystem call the node needs before its cache can be filled,
    /// or `None` once it is filled.
    fn pending(&self) -> (r: Option<Request>)
        ensures
            r is None <==> self.spec_populated(),
            r matches Some(q) ==> self.requests(q),
    ;

    /// Fills the cache from the outcome of the pending call. A filled cache
    /// is kept as it is; a failure leaves the node unchanged.
    fn populate(&mut self, fill: Fill) -> (r: Result<(), Error>)
        ensures
            old(self).fills(fill, *final(self), r),
            final(self).spec_relative_path() == old(self).spec_relative_path(),
            final(self).spec_full_path() == old(self).spec_full_path(),
            final(self).spec_kind() == old(self).spec_kind(),
            old(self).spec_populated() ==> r is Ok && *final(self) == *old(self),
            r is Ok <==> final(self).spec_populated(),
            r is Err ==> *final(self) == *old(self),
    ;

    /// The directory that holds this node, made from the full path alone;
    /// `None` for the root. Never fails.
    fn parent(&self) -> (r: Result<Option<Directory>, Error>)
        ensures
            r matches Ok(d) && is_parent_directory(d, self.spec_full_path()),
    ;
}

#[derive(Debug)]
pub enum EntryValue {
    Directory(Directory),
    File(File),
    SymLink(SymLink),
}

/// Whether `probe` lets `path` be classified: its type was read and is one
/// of the three kinds, and its canonical form was found.
pub open spec fn classifies(probe: Probe) -> bool {
    &&& probe.kind matches Ok(k)
    &&& k != FileKind::Other
    &&& probe.canonical is Ok
}

/// `e` is the error that classifying `path` with `probe` gives.
pub open spec fn fails_with(path: Seq<char>, probe: Probe, e: Error) -> bool {
    match probe.kind {
        Err(m) => e == Error::Io(m),
        Ok(FileKind::Other) => e matches Error::UnrecognizedFileType(p) && p@ == path,
        Ok(_) => match probe.canonical {
            Err(m) => e == Error::Io(m),
            Ok(_) => false,
        },
    }
}

/// `v` is the node that classifying `path` with `probe` gives: of the kind
/// read, at `path` and the canonical form, with an empty cache.
pub open spec fn is_classified(v: EntryValue, path: Seq<char>, probe: Probe) -> bool {
    &&& classifies(probe)
    &&& v.spec_kind() == probe.kind->Ok_0
    &&& v.spec_relative_path() == path
    &&& v.spec_full_path() == probe.canonical->Ok_0@
    &&& !v.spec_populated()
}

impl EntryValue {
    /// Turns a path into a node of the kind that its probe reports.
    pub fn classify(path: &String, probe: &Probe) -> (r: Result<EntryValue, Error>)
        ensures
            classifies(*probe) ==> (r matches Ok(v) && is_classified(v, path@, *probe)),
            !classifies(*probe) ==> (r matches Err(e) && fails_with(path@, *probe, e)),
    {
        let kind = match &probe.kind {
            Err(m) => {
                return Err(Error::Io(m.clone()));
            },
            Ok(k) => *k,
        };
        if kind == FileKind::Other {
            return Err(Error::UnrecognizedFileType(path.clone()));
        }
        let full_path = match &probe.canonical {
            Err(m) => {
                return Err(Error::Io(m.clone()));
            },
            Ok(c) => c.clone(),
        };
        let relative_path = path.clone();
        match kind {
            FileKind::Directory => Ok(EntryValue::Directory(Directory::new(relative_path, full_path))),
            FileKind::File => Ok(EntryValue::File(File::new(relative_path, full_path))),
            _ => Ok(EntryValue::SymLink(SymLink::new(relative_path, full_path))),
        }
    }

    /// How the node is shown: its relative path.
    pub fn to_string(&self) -> (r: String)
        ensures
            r@ == self.spec_relative_path(),
    {
        self.relative_path().clone()
    }

    /// The directory above `entry`, made from its full path.
    pub fn get_parent<E: AsEntry>(entry: &E) -> (r: Result<Option<Directory>, Error>)
        ensures
            r matches Ok(d) && is_parent_directory(d, entry.spec_full_path()),
    {
        Ok(Directory::parent_of_path(entry.full_path()))
    }
}

impl AsEntry for EntryValue {
    open spec fn spec_relative_path(&self) -> Seq<char> {
        match self {
            EntryValue::Directory(d) => d.spec_relative_path(),
            EntryValue::File(f) => f.spec_relative_path(),
            EntryValue::SymLink(l) => l.spec_relative_path(),
        }
    }

    open spec fn spec_full_path(&self) -> Seq<char> {
        match self {
            EntryValue::Directory(d) => d.spec_full_path(),
            EntryValue::File(f) => f.spec_full_path(),
            EntryValue::SymLink(l) => l.spec_full_path(),
        }
    }

    open spec fn spec_populated(&self) -> bool {
        match self {
            EntryValue::Directory(d) => d.spec_populated(),
            EntryValue::File(f) => f.spec_populated(),
            EntryValue::SymLink(l) => l.spec_populated(),
        }
    }

    open spec fn spec_kind(&self) -> FileKind {
        match self {
            EntryValue::Directory(_) => FileKind::Directory,
            EntryValue::File(_) => FileKind::File,
            EntryValue::SymLink(_) => FileKind::SymLink,
        }
    }

    open spec fn requests(&self, req: Request) -> bool {
        match self {
            EntryValue::Directory(d) => d.requests(req),
            EntryValue::File(f) => f.requests(req),
            EntryValue::SymLink(l) => l.requests(req),
        }
    }

    open spec fn fills(&self, fill: Fill, after: Self, r: Result<(), Error>) -> bool {
        match (self, after) {
            (EntryValue::Directory(d), EntryValue::Directory(a)) => d.fills(fill, a, r),
            (EntryValue::File(f), EntryValue::File(a)) => f.fills(fill, a, r),
            (EntryValue::SymLink(l), EntryValue::SymLink(a)) => l.fills(fill, a, r),
            _ => false,
        }
    }

    fn relative_path(&self) -> (r: &String) {
        match self {
            EntryValue::Directory(d) => d.relative_path(),
            EntryValue::File(f) => f.relative_path(),
            EntryValue::SymLink(l) => l.relative_path(),
        }
    }

    fn full_path(&self) -> (r: &String) {
        match self {
            EntryValue::Directory(d) => d.full_path(),
            EntryValue::File(f) => f.full_path(),
            EntryValue::SymLink(l) => l.full_path(),
        }
    }

    fn pending(&self) -> (r: Option<Request>) {
        match self {
            EntryValue::Directory(d) => d.pending(),
            EntryValue::File(f) => f.pending(),
            EntryValue::SymLink(l) => l.pending(),
        }
    }

    fn populate(&mut self, fill: Fill) -> (r: Result<(), Error>) {
        match self {
            EntryValue::Directory(d) => d.populate(fill),
            EntryValue::File(f) => f.populate(fill),
            EntryValue::SymLink(l) => l.populate(fill),
        }
    }

    fn parent(&self) -> (r: Result<Option<Directory>, Error>) {
        match self {
            EntryValue::Directory(d) => Self::get_parent(d),
            EntryValue::File(f) => Self::get_parent(f),
            EntryValue::SymLink(l) => Self::get_parent(l),
        }
    }
}

/// A node together with the directory above it, computed once from its
/// full path.
#[derive(Debug)]
pub struct Entry {
    value: EntryValue,
    parent: Option<Directory>,
}

pub struct EntryView {
    pub value: EntryValue,
    pub parent: Option<Directory>,
}

impl View for Entry {
    type V = EntryView;

    closed spec fn view(&self) -> EntryView {
        EntryView { value: self.value, parent: self.parent }
    }
}

impl Entry {
    pub open spec fn spec_full_path(&self) -> Seq<char> {
        self@.value.spec_full_path()
    }

    pub open spec fn spec_relative_path(&self) -> Seq<char> {
        self@.value.spec_relative_path()
    }

    /// The cached parent is the one that the full path gives.
    pub open spec fn parent_fits(&self) -> bool {
        is_parent_directory(self@.parent, self.spec_full_path())
    }

    /// `self` is the entry that classifying `path` with `probe` gives.
    pub open spec fn is_entry_for(&self, path: Seq<char>, probe: Probe) -> bool {
        is_classified(self@.value, path, probe) && self.parent_fits()
    }

    /// How the entry is shown: the relative path of its node.
    pub fn to_string(&self) -> (r: String)
        ensures
            r@ == self.spec_relative_path(),
    {
        self.value.to_string()
    }

    /// Wraps a node, computing its parent. Never fails.
    pub fn new(value: EntryValue) -> (r: Result<Entry, Error>)
        ensures
            r matches Ok(e) && e@.value == value && e.parent_fits(),
    {
        let parent = value.parent()?;
        Ok(Entry { value, parent })
    }

    /// Classifies `path` with its probe and wraps the node.
    pub fn classify(path: &String, probe: &Probe) -> (r: Result<Entry, Error>)
        ensures
            classifies(*probe) ==> (r matches Ok(e) && e.is_entry_for(path@, *probe)),
            !classifies(*probe) ==> (r matches Err(e) && fails_with(path@, *probe, e)),
    {
        let value = EntryValue::classify(path, probe)?;
        let parent = match &probe.canonical {
            Ok(c) => Directory::parent_of_path(c),
            Err(_) => None,
        };
        Ok(Entry { value, parent })
    }

    pub fn value(&self) -> (r: &EntryValue)
        ensures
            *r == self@.value,
    {
        &self.value
    }

    /// Gives up the wrapper, keeping the node.
    pub fn into_value(self) -> (r: EntryValue)
        ensures
            r == self@.value,
    {
        self.value
    }

    /// Mutable access to the node; the cached parent stays as it is.
    pub fn value_mut(&mut self) -> (r: &mut EntryValue)
        ensures
            *r == old(self)@.value,
            final(self)@ == (EntryView { value: *final(r), parent: old(self)@.parent }),
    {
        &mut self.value
    }

    pub fn relative_path(&self) -> (r: &String)
        ensures
            r@ == self.spec_relative_path(),
    {
        self.value.relative_path()
    }

    pub fn full_path(&self) -> (r: &String)
        ensures
            r@ == self.spec_full_path(),
    {
        self.value.full_path()
    }

    /// The filesystem call the node needs, or `None` once its cache is filled.
    pub fn pending(&self) -> (r: Option<Request>)
        ensures
            r is None <==> self@.value.spec_populated(),
            r matches Some(q) ==> self@.value.requests(q),
    {
        self.value.pending()
    }

    /// Fills the node's cache from the outcome of its pending call.
    pub fn populate(&mut self, fill: Fill) -> (r: Result<(), Error>)
        ensures
            old(self)@.value.fills(fill, final(self)@.value, r),
            final(self)@.parent == old(self)@.parent,
            final(self).spec_full_path() == old(self).spec_full_path(),
            old(self)@.value.spec_populated() ==> r is Ok && final(self)@ == old(self)@,
            r is Ok <==> final(self)@.value.spec_populated(),
            r is Err ==> final(self)@ == old(self)@,
    {
        self.value.populate(fill)
    }

    /// Computes the parent again from the full path. Never fails.
    pub fn update_parent(&mut self) -> (r: Result<(), Error>)
        ensures
            r is Ok,
            final(self)@.value == old(self)@.value,
            final(self).parent_fits(),
    {
        self.parent = self.value.parent()?;
        Ok(())
    }

    /// The directory above this node; `None` for the root.
    pub fn parent(&self) -> (r: &Option<Directory>)
        ensures
            *r == self@.parent,
    {
        &self.parent
    }
}

} // verus!

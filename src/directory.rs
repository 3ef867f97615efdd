//! A directory and its lazily listed children.
use crate::entry::{classifies, fails_with, AsEntry, Entry};
use crate::error::Error;
use crate::path::{parent_of, parent_path};
use crate::probe::{FileKind, Fill, Request, WalkItem};
use vstd::prelude::*;

verus! {

#[derive(Debug)]
pub struct Directory {
    relative_path: String,
    full_path: String,
    children: Option<Vec<Entry>>,
}

/// A directory as a value: its two paths and, once listed, its children in
/// the order the walk gave them.
pub struct DirectoryView {
    pub relative_path: Seq<char>,
    pub full_path: Seq<char>,
    pub children: Option<Seq<Entry>>,
}

impl View for Directory {
    type V = DirectoryView;

    closed spec fn view(&self) -> DirectoryView {
        DirectoryView {
            relative_path: self.relative_path@,
            full_path: self.full_path@,
            children: match self.children {
                Some(v) => Some(v@),
                None => None,
            },
        }
    }
}

/// `d` is the directory above the canonical path `full`: an unlisted
/// directory at its parent path, or nothing for the root.
pub open spec fn is_parent_directory(d: Option<Directory>, full: Seq<char>) -> bool {
    match parent_path(full) {
        None => d is None,
        Some(p) => d matches Some(x) && x@ == (DirectoryView {
            relative_path: p,
            full_path: p,
            children: None,
        }),
    }
}

/// A walk item that stands for a child: reached below the walked directory.
pub open spec fn is_listed(w: WalkItem) -> bool {
    w matches WalkItem::Found { depth, .. } && depth > 0
}

/// [`is_listed`] as a predicate value, for filtering.
pub open spec fn listed_pred() -> spec_fn(WalkItem) -> bool {
    |w: WalkItem| is_listed(w)
}

/// The items of a walk that stand for children, in walk order.
pub open spec fn listed(items: Seq<WalkItem>) -> Seq<WalkItem> {
    items.filter(listed_pred())
}

/// Whether the walk reported any failure.
pub open spec fn walk_failed(items: Seq<WalkItem>) -> bool {
    exists|k: int| 0 <= k < items.len() && #[trigger] items[k] is Failed
}

/// `e` reports the first failure of the walk.
pub open spec fn is_walk_failure(items: Seq<WalkItem>, e: Error) -> bool {
    exists|k: int|
        {
            &&& 0 <= k < items.len()
            &&& #[trigger] items[k] is Failed
            &&& e == Error::Ignore(items[k]->0)
            &&& forall|j: int| 0 <= j < k ==> !(#[trigger] items[j] is Failed)
        }
}

/// Whether every listed child can be classified.
pub open spec fn all_classify(l: Seq<WalkItem>) -> bool {
    forall|k: int| 0 <= k < l.len() ==> classifies(#[trigger] l[k]->probe)
}

/// `e` is the failure of the first child that cannot be classified.
pub open spec fn is_classify_failure(l: Seq<WalkItem>, e: Error) -> bool {
    exists|k: int|
        {
            &&& 0 <= k < l.len()
            &&& !classifies(#[trigger] l[k]->probe)
            &&& fails_with(l[k]->path@, l[k]->probe, e)
            &&& forall|j: int| 0 <= j < k ==> classifies(#[trigger] l[j]->probe)
        }
}

/// The first of `children` whose full path is `target`.
pub open spec fn find_child(children: Seq<Entry>, target: Seq<char>) -> Option<Entry>
    decreases children.len(),
{
    if children.len() == 0 {
        None
    } else if children[0].spec_full_path() == target {
        Some(children[0])
    } else {
        find_child(children.subrange(1, children.len() as int), target)
    }
}

/// The first cached child whose full path is `target`; nothing while the
/// children are not listed.
pub open spec fn lookup(children: Option<Seq<Entry>>, target: Seq<char>) -> Option<Entry> {
    match children {
        Some(cs) => find_child(cs, target),
        None => None,
    }
}

proof fn lemma_listed_step(items: Seq<WalkItem>, i: int)
    requires
        0 <= i < items.len(),
    ensures
        listed(items.subrange(0, i + 1)) == if is_listed(items[i]) {
            listed(items.subrange(0, i)).push(items[i])
        } else {
            listed(items.subrange(0, i))
        },
{
    reveal(Seq::filter);
    assert(items.subrange(0, i + 1).drop_last() =~= items.subrange(0, i));
}

proof fn lemma_listed_prefix(items: Seq<WalkItem>, i: int)
    requires
        0 <= i <= items.len(),
    ensures
        listed(items) == listed(items.subrange(0, i)) + listed(
            items.subrange(i, items.len() as int),
        ),
{
    assert(items =~= items.subrange(0, i) + items.subrange(i, items.len() as int));
    Seq::filter_distributes_over_add(
        items.subrange(0, i),
        items.subrange(i, items.len() as int),
        listed_pred(),
    );
}

impl Directory {
    /// A directory at the given paths whose children have not been listed.
    pub(crate) fn new(relative_path: String, full_path: String) -> (r: Directory)
        ensures
            r@ == (DirectoryView {
                relative_path: relative_path@,
                full_path: full_path@,
                children: None,
            }),
    {
        Directory { relative_path, full_path, children: None }
    }

    /// The directory above the canonical path `full_path`, made from the path
    /// alone; `None` for the root.
    pub(crate) fn parent_of_path(full_path: &String) -> (r: Option<Directory>)
        ensures
            is_parent_directory(r, full_path@),
    {
        match parent_of(full_path.as_str()) {
            Some(p) => Some(Directory::new(p.clone(), p)),
            None => None,
        }
    }

    /// The children, once listed.
    pub fn entries(&self) -> (r: Option<&Vec<Entry>>)
        ensures
            match r {
                Some(v) => self@.children == Some(v@),
                None => self@.children is None,
            },
    {
        match &self.children {
            Some(v) => Some(v),
            None => None,
        }
    }

    /// The cached child whose full path is `canonical`, the canonical form of
    /// `path` (or why it could not be resolved). Only immediate children are
    /// searched.
    pub fn get_entry(&self, path: &str, canonical: &Result<String, String>) -> (r: Result<
        &Entry,
        Error,
    >)
        ensures
            canonical matches Err(m) ==> (r matches Err(e) && e == Error::Io(*m)),
            canonical matches Ok(c) ==> match lookup(self@.children, c@) {
                Some(x) => r matches Ok(y) && *y == x,
                None => r matches Err(Error::FileNotFound(p)) && p@ == path@,
            },
    {
        let c = match canonical {
            Err(m) => {
                return Err(Error::Io(m.clone()));
            },
            Ok(c) => c,
        };
        let cs = match &self.children {
            Some(v) => v,
            None => {
                return Err(Error::FileNotFound(String::from_str(path)));
            },
        };
        let n = cs.len();
        let mut i: usize = 0;
        assert(cs@.subrange(0, n as int) =~= cs@);
        while i < n
            invariant
                i <= n,
                n == cs@.len(),
                find_child(cs@, c@) == find_child(cs@.subrange(i as int, n as int), c@),
                *canonical == Ok::<String, String>(*c),
                self@.children == Some(cs@),
            decreases n - i,
        {
            assert(cs@.subrange(i as int, n as int).subrange(1, n - i) =~= cs@.subrange(
                i + 1,
                n as int,
            ));
            let e = &cs[i];
            if e.full_path().eq(c) {
                assert(find_child(cs@.subrange(i as int, n as int), c@) == Some(*e));
                return Ok(e);
            }
            i = i + 1;
        }
        Err(Error::FileNotFound(String::from_str(path)))
    }

    /// Lists the children from a walk: the first failure the walk reports,
    /// else the first child that cannot be classified, else every child in
    /// walk order.
    fn fill_from_walk(&mut self, items: Vec<WalkItem>) -> (r: Result<(), Error>)
        requires
            old(self)@.children is None,
        ensures
            walk_failed(items@) ==> *final(self) == *old(self) && (r matches Err(e)
                && is_walk_failure(items@, e)),
            !walk_failed(items@) && !all_classify(listed(items@)) ==> *final(self) == *old(self)
                && (r matches Err(e) && is_classify_failure(listed(items@), e)),
            !walk_failed(items@) && all_classify(listed(items@)) ==> {
                &&& r is Ok
                &&& final(self)@.relative_path == old(self)@.relative_path
                &&& final(self)@.full_path == old(self)@.full_path
                &&& final(self)@.children matches Some(cs) && cs.len() == listed(items@).len()
                    && forall|k: int|
                    0 <= k < cs.len() ==> (#[trigger] cs[k]).is_entry_for(
                        listed(items@)[k]->path@,
                        listed(items@)[k]->probe,
                    )
            },
    {
        let n = items.len();
        let mut i: usize = 0;
        while i < n
            invariant
                i <= n,
                n == items@.len(),
                forall|j: int| 0 <= j < i ==> !(#[trigger] items@[j] is Failed),
            decreases n - i,
        {
            if let WalkItem::Failed(m) = &items[i] {
                let e = Error::Ignore(m.clone());
                assert(is_walk_failure(items@, e) && items@[i as int] is Failed);
                return Err(e);
            }
            i = i + 1;
        }
        assert(!walk_failed(items@));
        let mut children: Vec<Entry> = Vec::new();
        let mut i: usize = 0;
        while i < n
            invariant
                i <= n,
                n == items@.len(),
                !walk_failed(items@),
                children@.len() == listed(items@.subrange(0, i as int)).len(),
                all_classify(listed(items@.subrange(0, i as int))),
                forall|k: int|
                    0 <= k < children@.len() ==> (#[trigger] children@[k]).is_entry_for(
                        listed(items@.subrange(0, i as int))[k]->path@,
                        listed(items@.subrange(0, i as int))[k]->probe,
                    ),
            decreases n - i,
        {
            proof {
                lemma_listed_step(items@, i as int);
            }
            if let WalkItem::Found { depth, path, probe } = &items[i] {
                if *depth > 0 {
                    match Entry::classify(path, probe) {
                        Ok(e) => {
                            children.push(e);
                        },
                        Err(e) => {
                            proof {
                                let before = listed(items@.subrange(0, i as int));
                                let k = before.len() as int;
                                lemma_listed_prefix(items@, i + 1);
                                assert(listed(items@)[k] == items@[i as int]);
                                assert(is_classify_failure(listed(items@), e));
                            }
                            return Err(e);
                        },
                    }
                }
            }
            i = i + 1;
        }
        assert(items@.subrange(0, n as int) =~= items@);
        self.children = Some(children);
        Ok(())
    }
}

impl AsEntry for Directory {
    open spec fn spec_relative_path(&self) -> Seq<char> {
        self@.relative_path
    }

    open spec fn spec_full_path(&self) -> Seq<char> {
        self@.full_path
    }

    open spec fn spec_populated(&self) -> bool {
        self@.children is Some
    }

    open spec fn spec_kind(&self) -> FileKind {
        FileKind::Directory
    }

    open spec fn requests(&self, req: Request) -> bool {
        req matches Request::Walk(p) && p@ == self@.relative_path
    }

    open spec fn fills(&self, fill: Fill, after: Self, r: Result<(), Error>) -> bool {
        if self@.children is Some {
            r is Ok && after == *self
        } else {
            match fill {
                Fill::Walked(items) => {
                    let l = listed(items@);
                    if walk_failed(items@) {
                        after == *self && (r matches Err(e) && is_walk_failure(items@, e))
                    } else if !all_classify(l) {
                        after == *self && (r matches Err(e) && is_classify_failure(l, e))
                    } else {
                        &&& r is Ok
                        &&& after@.relative_path == self@.relative_path
                        &&& after@.full_path == self@.full_path
                        &&& after@.children matches Some(cs) && cs.len() == l.len() && forall|
                            k: int,
                        |
                            0 <= k < cs.len() ==> (#[trigger] cs[k]).is_entry_for(
                                l[k]->path@,
                                l[k]->probe,
                            )
                    }
                },
                _ => after == *self && (r matches Err(Error::IncorrectFileType {
                    path,
                    expected,
                    found,
                }) && path@ == self@.relative_path && expected == fill.spec_kind() && found
                    == FileKind::Directory),
            }
        }
    }

    fn relative_path(&self) -> (r: &String) {
        &self.relative_path
    }

    fn full_path(&self) -> (r: &String) {
        &self.full_path
    }

    fn pending(&self) -> (r: Option<Request>) {
        match &self.children {
            Some(_) => None,
            None => Some(Request::Walk(self.relative_path.clone())),
        }
    }

    fn populate(&mut self, fill: Fill) -> (r: Result<(), Error>) {
        if self.children.is_some() {
            return Ok(());
        }
        let kind = fill.kind();
        match fill {
            Fill::Walked(items) => self.fill_from_walk(items),
            _ => Err(
                Error::IncorrectFileType {
                    path: self.relative_path.clone(),
                    expected: kind,
                    found: FileKind::Directory,
                },
            ),
        }
    }

    fn parent(&self) -> (r: Result<Option<Directory>, Error>) {
        Ok(Directory::parent_of_path(&self.full_path))
    }
}

} // verus!

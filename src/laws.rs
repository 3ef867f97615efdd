//! Properties that relate several operations of the tree.
use crate::directory::{find_child, Directory};
use crate::entry::{classifies, fails_with, AsEntry, Entry};
use crate::error::Error;
use crate::path::{last_index_of, parent_path};
use crate::probe::{FileKind, Fill, LinkTarget, Probe};
use crate::symlink::SymLink;
use vstd::prelude::*;

verus! {

/// An entry made by classifying a path has the path's canonical form as its
/// full path, and the path itself as its relative path.
pub proof fn lemma_classified_full_path(e: Entry, path: Seq<char>, probe: Probe)
    requires
        e.is_entry_for(path, probe),
    ensures
        probe.canonical is Ok,
        e.spec_full_path() == probe.canonical->Ok_0@,
        e.spec_relative_path() == path,
{
}

/// A directory's children are listed once. After a successful population
/// the directory asks for no further walk, and populating it again keeps
/// the first listing, whatever the second walk reports.
pub proof fn lemma_listing_is_cached(
    d0: Directory,
    first: Fill,
    d1: Directory,
    r1: Result<(), Error>,
    second: Fill,
    d2: Directory,
    r2: Result<(), Error>,
)
    requires
        d0.fills(first, d1, r1),
        r1 is Ok,
        d1.fills(second, d2, r2),
    ensures
        d1.spec_populated(),
        r2 is Ok,
        d2 == d1,
        d2@.children == d1@.children,
{
}

/// Looking a path up among a directory's children succeeds exactly when
/// one of them has that full path, and gives such a child.
pub proof fn lemma_lookup_matches_listing(children: Seq<Entry>, target: Seq<char>)
    ensures
        find_child(children, target) is Some <==> exists|i: int|
            0 <= i < children.len() && (#[trigger] children[i]).spec_full_path() == target,
        find_child(children, target) matches Some(e) ==> e.spec_full_path() == target
            && children.contains(e),
    decreases children.len(),
{
    if children.len() > 0 {
        let rest = children.subrange(1, children.len() as int);
        lemma_lookup_matches_listing(rest, target);
        if children[0].spec_full_path() != target {
            if exists|i: int|
                0 <= i < children.len() && (#[trigger] children[i]).spec_full_path() == target {
                let i = choose|i: int|
                    0 <= i < children.len() && (#[trigger] children[i]).spec_full_path()
                        == target;
                assert(rest[i - 1] == children[i]);
            }
            if find_child(children, target) is Some {
                let e = find_child(children, target)->0;
                let j = choose|j: int| 0 <= j < rest.len() && rest[j] == e;
                assert(children[j + 1] == e);
            }
        } else {
            assert(children[0] == children[0]);
        }
    }
}

/// The root, whose full path is `/`, has no parent.
pub proof fn lemma_root_has_no_parent(e: Entry)
    requires
        e.parent_fits(),
        e.spec_full_path() == seq!['/'],
    ensures
        e@.parent is None,
{
    let p = e.spec_full_path();
    assert(p[0] == '/');
    assert(last_index_of(p, '/', 1) == 0);
    assert(parent_path(p) is None);
}

/// Following a link that leads to a regular file gives a file entry whose
/// full path is the canonical form of the link's target.
pub proof fn lemma_link_to_file(l: SymLink, t: LinkTarget, after: SymLink, r: Result<(), Error>)
    requires
        !l.spec_populated(),
        l.fills(Fill::Link(Ok(t)), after, r),
        t.probe.kind == Ok::<FileKind, String>(FileKind::File),
        t.probe.canonical is Ok,
    ensures
        r is Ok,
        after@.target matches Some(e) && e@.value is File && e.spec_full_path()
            == t.probe.canonical->Ok_0@,
{
}

/// Following a dangling link fails with an I/O error and leaves the link
/// as it was: its text cannot be read, or the path it leads to cannot be
/// probed.
pub proof fn lemma_dangling_link(l: SymLink, fill: Fill, after: SymLink, r: Result<(), Error>)
    requires
        !l.spec_populated(),
        l.fills(fill, after, r),
        fill matches Fill::Link(res) && (res is Err || res->Ok_0.probe.kind is Err),
    ensures
        r matches Err(Error::Io(_)),
        after == l,
{
}

/// A path whose type is none of the three kinds (a socket, a FIFO, a
/// device) is not classified, and fails as unrecognized.
pub proof fn lemma_other_kind_unrecognized(path: Seq<char>, probe: Probe, e: Error)
    requires
        probe.kind == Ok::<FileKind, String>(FileKind::Other),
        fails_with(path, probe, e),
    ensures
        !classifies(probe),
        e matches Error::UnrecognizedFileType(p) && p@ == path,
{
}

} // verus!

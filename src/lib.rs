//! A lazily filled, in-memory tree of filesystem nodes: directories, files
//! and symbolic links, each identified by its canonical path. A node fills
//! its cache (children, bytes, link target) once, from the outcome of the
//! filesystem call it asks for, and keeps it from then on.
mod directory;
mod entry;
mod error;
mod file;
mod laws;
mod path;
mod probe;
mod symlink;

pub use directory::{
    all_classify, find_child, is_classify_failure, is_listed, is_parent_directory,
    is_walk_failure, listed, listed_pred, lookup, walk_failed, Directory, DirectoryView,
};
pub use entry::{classifies, fails_with, is_classified, AsEntry, Entry, EntryValue, EntryView};
pub use error::Error;
pub use file::{File, FileView};
pub use path::{last_index_of, link_target_path, parent_of, parent_path, target_of_link};
pub use probe::{FileKind, Fill, LinkTarget, Probe, Request, WalkItem};
pub use symlink::{SymLink, SymLinkView};
pub use laws::{
    lemma_classified_full_path, lemma_dangling_link, lemma_link_to_file,
    lemma_listing_is_cached, lemma_lookup_matches_listing, lemma_other_kind_unrecognized,
    lemma_root_has_no_parent,
};

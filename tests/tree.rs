use file_browser::{
    link_target_path, parent_of, AsEntry, Directory, Entry, EntryValue, Error, FileKind, Fill,
    LinkTarget, Probe, Request, WalkItem,
};

fn s(x: &str) -> String {
    x.to_string()
}

fn probe(kind: FileKind, canonical: &str) -> Probe {
    Probe { kind: Ok(kind), canonical: Ok(s(canonical)) }
}

fn found(depth: usize, path: &str, kind: FileKind, canonical: &str) -> WalkItem {
    WalkItem::Found { depth, path: s(path), probe: probe(kind, canonical) }
}

fn directory(path: &str, canonical: &str) -> Directory {
    match EntryValue::classify(&s(path), &probe(FileKind::Directory, canonical)) {
        Ok(EntryValue::Directory(d)) => d,
        other => panic!("not a directory: {:?}", other),
    }
}

fn src_walk() -> Vec<WalkItem> {
    vec![
        found(0, "src", FileKind::Directory, "/work/src"),
        found(1, "src/b.txt", FileKind::File, "/work/src/b.txt"),
        found(1, "src/a.txt", FileKind::File, "/work/src/a.txt"),
        found(1, "src/sub", FileKind::Directory, "/work/src/sub"),
    ]
}

fn relative_paths(d: &Directory) -> Vec<String> {
    d.entries().unwrap().iter().map(|e| e.relative_path().clone()).collect()
}

#[test]
fn classify_gives_canonical_full_path() {
    let e = Entry::classify(&s("./src/../src/a.txt"), &probe(FileKind::File, "/work/src/a.txt"))
        .unwrap();
    assert_eq!(e.full_path(), "/work/src/a.txt");
    assert_eq!(e.relative_path(), "./src/../src/a.txt");
    assert!(matches!(e.value(), EntryValue::File(_)));
    assert!(e.pending().is_some());
}

#[test]
fn classify_picks_the_reported_kind() {
    let d = EntryValue::classify(&s("d"), &probe(FileKind::Directory, "/w/d")).unwrap();
    assert!(matches!(d, EntryValue::Directory(_)));
    let l = EntryValue::classify(&s("l"), &probe(FileKind::SymLink, "/w/t")).unwrap();
    assert!(matches!(l, EntryValue::SymLink(_)));
    assert_eq!(l.full_path(), "/w/t");
    assert_eq!(l.relative_path(), "l");
}

#[test]
fn classify_socket_is_unrecognized() {
    let r = Entry::classify(&s("/run/app.sock"), &probe(FileKind::Other, "/run/app.sock"));
    assert_eq!(r.unwrap_err(), Error::UnrecognizedFileType(s("/run/app.sock")));
}

#[test]
fn classify_missing_path_is_io() {
    let p = Probe { kind: Err(s("No such file or directory")), canonical: Err(s("gone")) };
    let r = Entry::classify(&s("missing"), &p);
    assert_eq!(r.unwrap_err(), Error::Io(s("No such file or directory")));
}

#[test]
fn classify_unresolvable_path_is_io() {
    let p = Probe { kind: Ok(FileKind::File), canonical: Err(s("Permission denied")) };
    let r = EntryValue::classify(&s("locked"), &p);
    assert_eq!(r.unwrap_err(), Error::Io(s("Permission denied")));
}

#[test]
fn listing_skips_self_and_keeps_walk_order() {
    let mut d = directory("src", "/work/src");
    assert_eq!(d.pending(), Some(Request::Walk(s("src"))));
    assert!(d.entries().is_none());
    d.populate(Fill::Walked(src_walk())).unwrap();
    assert_eq!(relative_paths(&d), vec![s("src/b.txt"), s("src/a.txt"), s("src/sub")]);
    assert_eq!(d.pending(), None);
    let kinds: Vec<bool> = d
        .entries()
        .unwrap()
        .iter()
        .map(|e| matches!(e.value(), EntryValue::File(_)))
        .collect();
    assert_eq!(kinds, vec![true, true, false]);
}

#[test]
fn listing_is_cached_and_stale_by_design() {
    let mut d = directory("src", "/work/src");
    d.populate(Fill::Walked(src_walk())).unwrap();
    let mut later = src_walk();
    later.push(found(1, "src/new.txt", FileKind::File, "/work/src/new.txt"));
    assert_eq!(d.pending(), None);
    d.populate(Fill::Walked(later)).unwrap();
    assert_eq!(relative_paths(&d), vec![s("src/b.txt"), s("src/a.txt"), s("src/sub")]);
}

#[test]
fn scenario_src_listing_and_lookup_share_the_cached_node() {
    let mut d = directory("src", "/work/src");
    let walk = vec![
        found(0, "src", FileKind::Directory, "/work/src"),
        found(1, "src/a.txt", FileKind::File, "/work/src/a.txt"),
        found(1, "src/b.txt", FileKind::File, "/work/src/b.txt"),
        found(1, "src/sub", FileKind::Directory, "/work/src/sub"),
    ];
    d.populate(Fill::Walked(walk)).unwrap();
    assert_eq!(relative_paths(&d), vec![s("src/a.txt"), s("src/b.txt"), s("src/sub")]);
    let found = d.get_entry("./src/a.txt", &Ok(s("/work/src/a.txt"))).unwrap();
    let listed = &d.entries().unwrap()[0];
    assert!(std::ptr::eq(found, listed));
    assert!(matches!(found.value(), EntryValue::File(_)));
}

#[test]
fn lookup_finds_every_listed_child() {
    let mut d = directory("src", "/work/src");
    d.populate(Fill::Walked(src_walk())).unwrap();
    let children = d.entries().unwrap();
    for (i, child) in children.iter().enumerate() {
        let got = d.get_entry(child.relative_path(), &Ok(child.full_path().clone())).unwrap();
        assert!(std::ptr::eq(got, &children[i]));
    }
}

#[test]
fn lookup_of_unlisted_path_is_not_found() {
    let mut d = directory("src", "/work/src");
    d.populate(Fill::Walked(src_walk())).unwrap();
    let r = d.get_entry("src/sub/deep.txt", &Ok(s("/work/src/sub/deep.txt")));
    assert_eq!(r.unwrap_err(), Error::FileNotFound(s("src/sub/deep.txt")));
}

#[test]
fn lookup_before_listing_is_not_found() {
    let d = directory("src", "/work/src");
    let r = d.get_entry("src/a.txt", &Ok(s("/work/src/a.txt")));
    assert_eq!(r.unwrap_err(), Error::FileNotFound(s("src/a.txt")));
}

#[test]
fn lookup_of_unresolvable_path_is_io() {
    let mut d = directory("src", "/work/src");
    d.populate(Fill::Walked(src_walk())).unwrap();
    let r = d.get_entry("src/zzz", &Err(s("No such file or directory")));
    assert_eq!(r.unwrap_err(), Error::Io(s("No such file or directory")));
}

#[test]
fn walk_failure_aborts_listing() {
    let mut d = directory("src", "/work/src");
    let walk = vec![
        found(0, "src", FileKind::Directory, "/work/src"),
        found(1, "src/a.txt", FileKind::File, "/work/src/a.txt"),
        WalkItem::Failed(s("permission denied: src/private")),
        WalkItem::Failed(s("second")),
    ];
    let r = d.populate(Fill::Walked(walk));
    assert_eq!(r.unwrap_err(), Error::Ignore(s("permission denied: src/private")));
    assert!(d.entries().is_none());
    assert_eq!(d.pending(), Some(Request::Walk(s("src"))));
}

#[test]
fn walk_failure_wins_over_classification_failure() {
    let mut d = directory("src", "/work/src");
    let walk = vec![
        found(1, "src/fifo", FileKind::Other, "/work/src/fifo"),
        WalkItem::Failed(s("walk broke")),
    ];
    let r = d.populate(Fill::Walked(walk));
    assert_eq!(r.unwrap_err(), Error::Ignore(s("walk broke")));
}

#[test]
fn first_unclassifiable_child_aborts_listing_then_retry_succeeds() {
    let mut d = directory("src", "/work/src");
    let walk = vec![
        found(0, "src", FileKind::Directory, "/work/src"),
        found(1, "src/a.txt", FileKind::File, "/work/src/a.txt"),
        found(1, "src/pipe", FileKind::Other, "/work/src/pipe"),
        WalkItem::Found {
            depth: 1,
            path: s("src/gone"),
            probe: Probe { kind: Err(s("vanished")), canonical: Err(s("vanished")) },
        },
    ];
    let r = d.populate(Fill::Walked(walk));
    assert_eq!(r.unwrap_err(), Error::UnrecognizedFileType(s("src/pipe")));
    assert!(d.entries().is_none());
    d.populate(Fill::Walked(src_walk())).unwrap();
    assert_eq!(d.entries().unwrap().len(), 3);
}

#[test]
fn empty_directory_lists_nothing() {
    let mut d = directory("empty", "/work/empty");
    d.populate(Fill::Walked(vec![found(0, "empty", FileKind::Directory, "/work/empty")]))
        .unwrap();
    assert_eq!(d.entries().unwrap().len(), 0);
    assert_eq!(d.pending(), None);
}

#[test]
fn wrong_fill_is_incorrect_file_type() {
    let mut d = directory("src", "/work/src");
    let r = d.populate(Fill::Content(Ok(vec![1, 2])));
    assert_eq!(
        r.unwrap_err(),
        Error::IncorrectFileType { path: s("src"), expected: FileKind::File, found: FileKind::Directory }
    );
    assert!(d.entries().is_none());
}

#[test]
fn file_content_is_read_once() {
    let mut e = Entry::classify(&s("notes.txt"), &probe(FileKind::File, "/w/notes.txt")).unwrap();
    assert_eq!(e.pending(), Some(Request::Read(s("/w/notes.txt"))));
    e.populate(Fill::Content(Ok(b"hello".to_vec()))).unwrap();
    assert_eq!(e.pending(), None);
    e.populate(Fill::Content(Ok(b"changed".to_vec()))).unwrap();
    match e.value() {
        EntryValue::File(f) => assert_eq!(f.content().unwrap(), &b"hello".to_vec()),
        other => panic!("not a file: {:?}", other),
    }
}

#[test]
fn file_read_failure_is_io_and_keeps_cache_empty() {
    let mut e = Entry::classify(&s("notes.txt"), &probe(FileKind::File, "/w/notes.txt")).unwrap();
    let r = e.populate(Fill::Content(Err(s("Permission denied"))));
    assert_eq!(r.unwrap_err(), Error::Io(s("Permission denied")));
    assert!(e.pending().is_some());
    match e.value() {
        EntryValue::File(f) => assert!(f.content().is_none()),
        other => panic!("not a file: {:?}", other),
    }
}

#[test]
fn file_given_a_walk_is_incorrect_file_type() {
    let mut e = Entry::classify(&s("notes.txt"), &probe(FileKind::File, "/w/notes.txt")).unwrap();
    let r = e.populate(Fill::Walked(vec![]));
    assert_eq!(
        r.unwrap_err(),
        Error::IncorrectFileType {
            path: s("notes.txt"),
            expected: FileKind::Directory,
            found: FileKind::File
        }
    );
}

#[test]
fn link_to_file_resolves_to_file_at_canonical_target() {
    let mut e = Entry::classify(&s("src/link"), &probe(FileKind::SymLink, "/work/src/a.txt"))
        .unwrap();
    assert_eq!(e.pending(), Some(Request::ReadLink(s("src/link"))));
    let target = LinkTarget { text: s("a.txt"), probe: probe(FileKind::File, "/work/src/a.txt") };
    e.populate(Fill::Link(Ok(target))).unwrap();
    match e.value() {
        EntryValue::SymLink(l) => {
            let t = l.link().unwrap();
            assert!(matches!(t.value(), EntryValue::File(_)));
            assert_eq!(t.full_path(), "/work/src/a.txt");
            assert_eq!(t.relative_path(), "src/a.txt");
        },
        other => panic!("not a link: {:?}", other),
    }
    assert_eq!(e.pending(), None);
}

#[test]
fn link_target_path_is_taken_from_the_link_directory() {
    let mut e = Entry::classify(&s("src/link"), &probe(FileKind::SymLink, "/work/src/a.txt"))
        .unwrap();
    match e.value_mut() {
        EntryValue::SymLink(l) => {
            assert_eq!(l.target_path("../b.txt"), "src/../b.txt");
            assert_eq!(l.target_path("/etc/hosts"), "/etc/hosts");
        },
        other => panic!("not a link: {:?}", other),
    }
}

#[test]
fn dangling_link_fails_with_io() {
    let mut e = Entry::classify(&s("old"), &probe(FileKind::SymLink, "/w/old")).unwrap();
    let target = LinkTarget {
        text: s("missing.txt"),
        probe: Probe { kind: Err(s("No such file or directory")), canonical: Err(s("x")) },
    };
    let r = e.populate(Fill::Link(Ok(target)));
    assert_eq!(r.unwrap_err(), Error::Io(s("No such file or directory")));
    assert!(e.pending().is_some());
    let r = e.populate(Fill::Link(Err(s("Invalid argument"))));
    assert_eq!(r.unwrap_err(), Error::Io(s("Invalid argument")));
}

#[test]
fn link_to_fifo_is_unrecognized() {
    let mut e = Entry::classify(&s("l"), &probe(FileKind::SymLink, "/w/fifo")).unwrap();
    let target = LinkTarget { text: s("/w/fifo"), probe: probe(FileKind::Other, "/w/fifo") };
    let r = e.populate(Fill::Link(Ok(target)));
    assert_eq!(r.unwrap_err(), Error::UnrecognizedFileType(s("/w/fifo")));
}

#[test]
fn root_has_no_parent() {
    let e = Entry::classify(&s("/"), &probe(FileKind::Directory, "/")).unwrap();
    assert!(e.parent().is_none());
    assert!(e.value().parent().unwrap().is_none());
}

#[test]
fn parent_is_made_from_the_full_path() {
    let e = Entry::classify(&s("a.txt"), &probe(FileKind::File, "/home/u/a.txt")).unwrap();
    let p = e.parent().as_ref().unwrap();
    assert_eq!(p.full_path(), "/home/u");
    assert_eq!(p.relative_path(), "/home/u");
    assert!(p.entries().is_none());
    let top = Entry::classify(&s("etc"), &probe(FileKind::Directory, "/etc")).unwrap();
    assert_eq!(top.parent().as_ref().unwrap().full_path(), "/");
}

#[test]
fn new_and_update_parent_agree() {
    let v = EntryValue::classify(&s("x"), &probe(FileKind::File, "/a/b/x")).unwrap();
    let mut e = Entry::new(v).unwrap();
    assert_eq!(e.parent().as_ref().unwrap().full_path(), "/a/b");
    e.update_parent().unwrap();
    assert_eq!(e.parent().as_ref().unwrap().full_path(), "/a/b");
    let direct = EntryValue::get_parent(e.value()).unwrap().unwrap();
    assert_eq!(direct.full_path(), "/a/b");
}

#[test]
fn parent_of_paths() {
    assert_eq!(parent_of("/"), None);
    assert_eq!(parent_of("/usr"), Some(s("/")));
    assert_eq!(parent_of("/usr/lib/x"), Some(s("/usr/lib")));
    assert_eq!(parent_of("plain"), None);
}

#[test]
fn link_target_paths() {
    assert_eq!(link_target_path("src/link", "a.txt"), "src/a.txt");
    assert_eq!(link_target_path("link", "a.txt"), "a.txt");
    assert_eq!(link_target_path("/x/y/link", "../z"), "/x/y/../z");
    assert_eq!(link_target_path("src/link", "/abs/t"), "/abs/t");
}

#[test]
fn entries_show_their_relative_path() {
    let e = Entry::classify(&s("src/a.txt"), &probe(FileKind::File, "/work/src/a.txt")).unwrap();
    assert_eq!(e.to_string(), "src/a.txt");
    let d = EntryValue::classify(&s("./src"), &probe(FileKind::Directory, "/work/src")).unwrap();
    assert_eq!(d.to_string(), "./src");
    let l = Entry::classify(&s("ln"), &probe(FileKind::SymLink, "/work/src/a.txt")).unwrap();
    assert_eq!(l.to_string(), "ln");
}

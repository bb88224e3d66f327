use search_dispatch::api::search_path;
use search_dispatch::dispatch::search_dir;
use search_dispatch::parse::parse_search_text;
use search_dispatch::status::SearchStatusCode;
use search_dispatch::tree::{is_hidden, EntryKind, PathTarget, WalkEntry};
use search_dispatch::types::SearchResult;
use std::cell::{Cell, RefCell};

fn entry(depth: usize, path: &str, kind: EntryKind) -> WalkEntry {
    let name = path.rsplit('/').next().unwrap_or(path);
    WalkEntry { depth, name: Some(name.to_string()), path: Some(path.to_string()), kind }
}

fn dir(depth: usize, path: &str) -> WalkEntry {
    entry(depth, path, EntryKind::Directory)
}

fn file(depth: usize, path: &str, contents: &str) -> WalkEntry {
    entry(depth, path, EntryKind::File(Some(contents.as_bytes().to_vec())))
}

fn failure(depth: usize) -> WalkEntry {
    WalkEntry { depth, name: None, path: None, kind: EntryKind::Failed }
}

fn tree() -> Vec<WalkEntry> {
    vec![
        dir(0, "tree"),
        file(1, "tree/a.txt", "bee one\n"),
        file(1, "tree/.hidden.txt", "bee hidden\n"),
        dir(1, "tree/.git"),
        file(2, "tree/.git/config", "bee in git\n"),
        dir(2, "tree/.git/objects"),
        file(3, "tree/.git/objects/x", "bee deep\n"),
        dir(1, "tree/sub"),
        file(2, "tree/sub/b.txt", "no match\nbee two\n"),
        entry(2, "tree/sub/link", EntryKind::Other),
        file(1, "tree/z.txt", "bee three"),
    ]
}

fn searched(entries: Vec<WalkEntry>, pattern: &str) -> (SearchStatusCode, Vec<(String, i32, String)>) {
    let seen = RefCell::new(Vec::new());
    let callback = |result: SearchResult| {
        let name = result.file_name.expect("a file found in a walk is reported with its path");
        let text = String::from_utf8(result.bytes).expect("the line is UTF-8");
        seen.borrow_mut().push((name, result.line_number, text));
        true
    };
    let status = search_path(
        Some(b"tree"),
        Some(pattern.as_bytes()),
        Some(callback),
        &PathTarget::Directory(entries),
    );
    (status, seen.into_inner())
}

#[test]
fn only_visible_regular_files_are_searched() {
    let (status, seen) = searched(tree(), "bee");
    assert_eq!(SearchStatusCode::Success, status);
    assert_eq!(
        vec![
            ("tree/a.txt".to_string(), 1, "bee one\n".to_string()),
            ("tree/sub/b.txt".to_string(), 2, "bee two\n".to_string()),
            ("tree/z.txt".to_string(), 1, "bee three".to_string()),
        ],
        seen
    );
}

#[test]
fn entries_below_a_hidden_directory_are_never_visited() {
    let (status, seen) = searched(tree(), "git|deep|hidden");
    assert_eq!(SearchStatusCode::Success, status);
    assert!(seen.is_empty());
}

#[test]
fn hidden_root_prunes_the_whole_walk() {
    let entries = vec![dir(0, "."), file(1, "./a.txt", "bee\n"), dir(1, "./sub"), file(2, "./sub/b.txt", "bee\n")];
    let (status, seen) = searched(entries, "bee");
    assert_eq!(SearchStatusCode::Success, status);
    assert!(seen.is_empty());
}

#[test]
fn walk_goes_on_after_a_hidden_tree_ends() {
    let entries = vec![
        dir(0, "r"),
        dir(1, "r/.a"),
        dir(2, "r/.a/b"),
        file(3, "r/.a/b/in.txt", "bee\n"),
        file(2, "r/.a/also.txt", "bee\n"),
        file(1, "r/out.txt", "bee\n"),
        dir(1, "r/c"),
        file(2, "r/c/.skip", "bee\n"),
        file(2, "r/c/keep", "bee\n"),
    ];
    let (status, seen) = searched(entries, "bee");
    assert_eq!(SearchStatusCode::Success, status);
    let names: Vec<&str> = seen.iter().map(|line| line.0.as_str()).collect();
    assert_eq!(vec!["r/out.txt", "r/c/keep"], names);
}

#[test]
fn hidden_file_prunes_nothing_but_itself() {
    let entries = vec![dir(0, "r"), file(1, "r/.a", "bee\n"), file(2, "r/odd.txt", "bee\n")];
    let (status, seen) = searched(entries, "bee");
    assert_eq!(SearchStatusCode::Success, status);
    assert_eq!(vec![("r/odd.txt".to_string(), 1, "bee\n".to_string())], seen);
}

#[test]
fn failure_of_the_walk_ends_the_search_after_what_came_before() {
    let entries = vec![
        dir(0, "r"),
        file(1, "r/a.txt", "bee\n"),
        failure(1),
        file(1, "r/b.txt", "bee\n"),
    ];
    let (status, seen) = searched(entries, "bee");
    assert_eq!(SearchStatusCode::ErrorCouldNotOpenFile, status);
    assert_eq!(vec![("r/a.txt".to_string(), 1, "bee\n".to_string())], seen);
}

#[test]
fn failure_below_a_hidden_directory_is_not_reported() {
    let entries = vec![dir(0, "r"), dir(1, "r/.git"), failure(2), file(1, "r/b.txt", "bee\n")];
    let (status, seen) = searched(entries, "bee");
    assert_eq!(SearchStatusCode::Success, status);
    assert_eq!(1, seen.len());
}

#[test]
fn file_that_cannot_be_read_ends_the_walk() {
    let entries = vec![
        dir(0, "r"),
        file(1, "r/a.txt", "bee\n"),
        entry(1, "r/locked", EntryKind::File(None)),
        file(1, "r/b.txt", "bee\n"),
    ];
    let (status, seen) = searched(entries, "bee");
    assert_eq!(SearchStatusCode::ErrorFromCallback, status);
    assert_eq!(1, seen.len());
}

#[test]
fn refusal_in_one_file_stops_the_whole_walk() {
    let calls = Cell::new(0u32);
    let callback = |_: SearchResult| {
        calls.set(calls.get() + 1);
        calls.get() < 2
    };
    let matcher = parse_search_text(Some(b"bee")).ok().unwrap();
    let result = search_dir(&tree(), &matcher, callback);
    assert_eq!(Err(SearchStatusCode::ErrorFromCallback), result);
    assert_eq!(2, calls.get());
}

#[test]
fn path_that_is_not_utf8_is_reported_as_unknown_file() {
    let entries = vec![
        dir(0, "r"),
        WalkEntry { depth: 1, name: None, path: None, kind: EntryKind::File(Some(b"bee\n".to_vec())) },
    ];
    let (status, seen) = searched(entries, "bee");
    assert_eq!(SearchStatusCode::Success, status);
    assert_eq!(vec![("<unknown file>".to_string(), 1, "bee\n".to_string())], seen);
}

#[test]
fn empty_walk_succeeds() {
    let (status, seen) = searched(Vec::new(), "bee");
    assert_eq!(SearchStatusCode::Success, status);
    assert!(seen.is_empty());
}

#[test]
fn hidden_names_begin_with_a_dot() {
    assert!(is_hidden(Some(".git")));
    assert!(is_hidden(Some(".")));
    assert!(is_hidden(Some("..")));
    assert!(!is_hidden(Some("src")));
    assert!(!is_hidden(Some("a.b")));
    assert!(!is_hidden(Some("")));
    assert!(!is_hidden(None));
}

use ocean::cache::{get_all_files, hash_content, Cache, FileData, SourceEntry, SourceTree};
use ocean::error::{Error, ErrorKind};
use std::hash::Hasher;

fn file(path: &str, content: &[u8]) -> SourceEntry {
    SourceEntry::File { path: path.to_string(), content: Ok(content.to_vec()) }
}

fn unreadable(path: &str, reason: &str) -> SourceEntry {
    SourceEntry::File { path: path.to_string(), content: Err(reason.to_string()) }
}

fn dir(path: &str, entries: Vec<SourceEntry>) -> SourceEntry {
    SourceEntry::Dir { path: path.to_string(), entries }
}

fn tree(entries: Vec<SourceEntry>) -> SourceTree {
    SourceTree { dir: "./src".to_string(), listing: Ok(entries) }
}

fn paths(files: &[FileData]) -> Vec<String> {
    files.iter().map(|f| f.path.clone()).collect()
}

fn std_fingerprint(content: &[u8]) -> String {
    let mut s = std::collections::hash_map::DefaultHasher::new();
    s.write(content);
    format!("{:x}", s.finish())
}

#[test]
fn fingerprint_is_the_digest_in_hexadecimal() {
    assert_eq!(hash_content(&Vec::new()), "d1fba762150c532c");
    assert_eq!(hash_content(&b"abc".to_vec()), "c03bc3a0042630f2");
    assert_eq!(hash_content(&b"int main() { return 0; }".to_vec()), "f0ac2a943c87b25d");
    assert_eq!(hash_content(&b"hello world".to_vec()), "b1b1f2e707e4ac8a");
}

#[test]
fn fingerprint_agrees_with_the_default_hasher() {
    for content in [&b""[..], b"a", b"abc", b"\x00\x01\x02", b"a longer piece of content, more than one block"]
    {
        assert_eq!(hash_content(&content.to_vec()), std_fingerprint(content));
    }
}

#[test]
fn equal_contents_have_equal_fingerprints() {
    let a = b"same bytes".to_vec();
    let b = b"same bytes".to_vec();
    assert_eq!(hash_content(&a), hash_content(&b));
    assert_ne!(hash_content(&a), hash_content(&b"other bytes".to_vec()));
}

#[test]
fn snapshot_walks_directories_and_lists_only_files() {
    let t = tree(vec![
        file("./src/a.c", b"a"),
        dir(
            "./src/sub",
            vec![
                file("./src/sub/b.c", b"b"),
                dir("./src/sub/empty", vec![]),
                dir("./src/sub/deep", vec![file("./src/sub/deep/c.c", b"c")]),
            ],
        ),
        file("./src/z.h", b"z"),
    ]);
    let files = get_all_files(&t).expect("the tree is readable");
    assert_eq!(
        paths(&files),
        vec!["./src/a.c", "./src/sub/b.c", "./src/sub/deep/c.c", "./src/z.h"]
    );
    assert_eq!(files[0].hash, std_fingerprint(b"a"));
    assert_eq!(files[1].hash, std_fingerprint(b"b"));
    assert_eq!(files[2].hash, std_fingerprint(b"c"));
    assert_eq!(files[3].hash, std_fingerprint(b"z"));
}

#[test]
fn snapshot_of_an_empty_tree_is_empty() {
    let cache = Cache::new(&tree(vec![])).expect("an empty tree is readable");
    assert!(cache.get_files().is_empty());
    let cache = Cache::new(&tree(vec![dir("./src/only", vec![])])).unwrap();
    assert!(cache.get_files().is_empty());
}

#[test]
fn unlistable_source_directory_is_an_io_error() {
    let t = SourceTree { dir: "./src".to_string(), listing: Err("Permission denied".to_string()) };
    match Cache::new(&t) {
        Err(e) => {
            assert_eq!(e.kind(), ErrorKind::Io);
            assert!(matches!(
                e,
                Error::SourceDir { ref dir, ref reason } if dir == "./src" && reason == "Permission denied"
            ));
            assert_eq!(
                e.message(),
                "Could not read source directory (\"./src\"): Permission denied"
            );
        },
        Ok(_) => panic!("a snapshot was taken of what could not be listed"),
    }
}

#[test]
fn unreadable_file_is_an_io_error_and_leaves_no_partial_snapshot() {
    let t = tree(vec![
        file("./src/a.c", b"a"),
        dir("./src/sub", vec![unreadable("./src/sub/b.c", "first"), file("./src/sub/c.c", b"c")]),
        unreadable("./src/d.c", "second"),
    ]);
    match Cache::new(&t) {
        Err(e) => {
            assert_eq!(e.kind(), ErrorKind::Io);
            assert!(matches!(
                e,
                Error::SourceFile { ref path, ref reason } if path == "./src/sub/b.c" && reason == "first"
            ));
            assert_eq!(e.message(), "Could not read file (\"./src/sub/b.c\"): first");
        },
        Ok(_) => panic!("a snapshot was taken though a file could not be read"),
    }
}

#[test]
fn diff_of_an_unchanged_tree_is_empty() {
    let t = tree(vec![
        file("./src/a.c", b"a"),
        dir("./src/sub", vec![file("./src/sub/b.c", b"b")]),
        file("./src/c.c", b"c"),
    ]);
    let cache = Cache::new(&t).unwrap();
    assert_eq!(cache.get_changed(true, &t).unwrap(), Vec::<String>::new());
    let empty = tree(vec![]);
    let cache = Cache::new(&empty).unwrap();
    assert_eq!(cache.get_changed(true, &empty).unwrap(), Vec::<String>::new());
}

#[test]
fn diff_reports_exactly_the_one_changed_file() {
    let before = tree(vec![file("./src/a.c", b"a"), file("./src/b.c", b"b"), file("./src/c.c", b"c")]);
    let after = tree(vec![file("./src/a.c", b"a"), file("./src/b.c", b"B"), file("./src/c.c", b"c")]);
    let cache = Cache::new(&before).unwrap();
    assert_eq!(cache.get_changed(true, &after).unwrap(), vec!["./src/b.c"]);
}

#[test]
fn diff_compares_by_position_and_not_by_path() {
    let before = tree(vec![file("./src/a.c", b"a"), file("./src/b.c", b"b")]);
    let renamed = tree(vec![file("./src/x.c", b"a"), file("./src/y.c", b"b")]);
    let cache = Cache::new(&before).unwrap();
    assert_eq!(cache.get_changed(true, &renamed).unwrap(), Vec::<String>::new());

    let swapped = tree(vec![file("./src/b.c", b"b"), file("./src/a.c", b"a")]);
    assert_eq!(cache.get_changed(true, &swapped).unwrap(), vec!["./src/b.c", "./src/a.c"]);

    let grown = tree(vec![file("./src/a.c", b"a"), file("./src/b.c", b"b"), file("./src/c.c", b"c")]);
    assert_eq!(cache.get_changed(true, &grown).unwrap(), Vec::<String>::new());

    let shrunk = tree(vec![file("./src/b.c", b"b")]);
    assert_eq!(cache.get_changed(true, &shrunk).unwrap(), vec!["./src/b.c"]);
}

#[test]
fn diff_without_a_lock_file_is_a_config_error() {
    let t = tree(vec![file("./src/a.c", b"a")]);
    let cache = Cache::new(&t).unwrap();
    match cache.get_changed(false, &t) {
        Err(e) => {
            assert_eq!(e.kind(), ErrorKind::Config);
            assert!(matches!(e, Error::NoLock));
            assert_eq!(e.message(), "Cannot find Ocean.lock in project root.");
        },
        Ok(_) => panic!("a diff was made without prior build state"),
    }
    let broken = SourceTree { dir: "./src".to_string(), listing: Err("gone".to_string()) };
    assert!(matches!(cache.get_changed(false, &broken), Err(Error::NoLock)));
}

#[test]
fn diff_of_an_unreadable_tree_is_an_io_error() {
    let t = tree(vec![file("./src/a.c", b"a")]);
    let cache = Cache::new(&t).unwrap();
    let broken = tree(vec![unreadable("./src/a.c", "busy")]);
    match cache.get_changed(true, &broken) {
        Err(e) => assert_eq!(e.kind(), ErrorKind::Io),
        Ok(_) => panic!("a diff was made of what could not be read"),
    }
}

#[test]
fn refresh_replaces_the_snapshot() {
    let before = tree(vec![file("./src/a.c", b"a")]);
    let after = tree(vec![file("./src/a.c", b"A"), file("./src/b.c", b"b")]);
    let mut cache = Cache::new(&before).unwrap();
    cache.update_cache(true, &after).unwrap();
    assert_eq!(paths(cache.get_files()), vec!["./src/a.c", "./src/b.c"]);
    assert_eq!(cache.get_files()[0].hash, std_fingerprint(b"A"));
    assert_eq!(cache.get_changed(true, &after).unwrap(), Vec::<String>::new());
}

#[test]
fn refresh_without_a_lock_file_is_a_config_error_and_changes_nothing() {
    let before = tree(vec![file("./src/a.c", b"a")]);
    let after = tree(vec![file("./src/b.c", b"b")]);
    let mut cache = Cache::new(&before).unwrap();
    match cache.update_cache(false, &after) {
        Err(e) => {
            assert_eq!(e.kind(), ErrorKind::Config);
            assert!(matches!(e, Error::NoLock));
        },
        Ok(_) => panic!("a refresh was made without prior build state"),
    }
    assert_eq!(paths(cache.get_files()), vec!["./src/a.c"]);
}

#[test]
fn refresh_of_an_unreadable_tree_fails_and_changes_nothing() {
    let before = tree(vec![file("./src/a.c", b"a")]);
    let mut cache = Cache::new(&before).unwrap();
    let broken = tree(vec![file("./src/x.c", b"x"), unreadable("./src/y.c", "busy")]);
    assert!(matches!(cache.update_cache(true, &broken), Err(Error::SourceFile { .. })));
    assert_eq!(paths(cache.get_files()), vec!["./src/a.c"]);
    assert_eq!(cache.get_files()[0].hash, std_fingerprint(b"a"));
}

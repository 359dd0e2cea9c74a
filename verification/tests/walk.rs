use ffind::args::{Args, FileType};
use ffind::walk::{build_walker, same_bytes, unique_paths};
use std::sync::Mutex;

fn settings(threads: usize, max_depth: Option<usize>) -> Args {
    Args {
        follow_symlinks: false,
        one_filesystem: true,
        threads,
        max_depth,
        name: None,
        regex: None,
        case_insensitive: false,
        file_type: vec![FileType::Directory, FileType::File, FileType::Symlink],
        path: vec![],
    }
}

fn bytes(paths: &[&str]) -> Vec<Vec<u8>> {
    paths.iter().map(|p| p.as_bytes().to_vec()).collect()
}

/// A directory with the file `name` in it.
fn directory_with(name: &str) -> tempfile::TempDir {
    let dir = tempfile::tempdir().unwrap();
    let file = tempfile::NamedTempFile::new_in(dir.path()).unwrap();
    file.persist(dir.path().join(name)).unwrap();
    dir
}

fn root_of(dir: &tempfile::TempDir) -> Vec<u8> {
    dir.path().to_str().unwrap().as_bytes().to_vec()
}

/// Runs the walker and gives the paths it visits, sorted.
fn visited(walker: ignore::WalkParallel) -> Vec<String> {
    let seen = Mutex::new(Vec::new());
    walker.run(|| {
        let seen = &seen;
        Box::new(move |found| {
            let found = found.unwrap();
            seen.lock().unwrap().push(found.path().to_str().unwrap().to_string());
            ignore::WalkState::Continue
        })
    });
    let mut paths = seen.into_inner().unwrap();
    paths.sort();
    paths
}

#[test]
fn same_bytes_compares_length_and_content() {
    assert!(same_bytes(b"", b""));
    assert!(same_bytes(b"/a/b", b"/a/b"));
    assert!(!same_bytes(b"/a/b", b"/a/c"));
    assert!(!same_bytes(b"/a/b", b"/a"));
    assert!(!same_bytes(b"/a", b"/a/b"));
}

#[test]
fn unique_paths_drops_repeats() {
    assert_eq!(unique_paths(&bytes(&["/a", "/a"])), bytes(&["/a"]));
    assert_eq!(unique_paths(&bytes(&["/a", "/b", "/a", "/c", "/b"])), bytes(&["/a", "/b", "/c"]));
}

#[test]
fn unique_paths_keeps_the_order_of_first_occurrence() {
    assert_eq!(unique_paths(&bytes(&["/z", "/a", "/z", "/m"])), bytes(&["/z", "/a", "/m"]));
}

#[test]
fn unique_paths_leaves_a_list_without_repeats() {
    assert_eq!(unique_paths(&bytes(&[])), bytes(&[]));
    assert_eq!(unique_paths(&bytes(&["/a"])), bytes(&["/a"]));
    assert_eq!(unique_paths(&bytes(&["/a", "/a/", "/A"])), bytes(&["/a", "/a/", "/A"]));
}

#[test]
fn walker_visits_every_root() {
    let first = directory_with("one.txt");
    let second = directory_with("two.txt");
    let roots = vec![root_of(&first), root_of(&second)];
    let walker = build_walker(&settings(3, None), &roots);
    let mut expected = vec![
        first.path().to_str().unwrap().to_string(),
        first.path().join("one.txt").to_str().unwrap().to_string(),
        second.path().to_str().unwrap().to_string(),
        second.path().join("two.txt").to_str().unwrap().to_string(),
    ];
    expected.sort();
    assert_eq!(visited(walker), expected);
}

#[test]
fn walker_keeps_one_thread_for_the_writer() {
    let dir = directory_with("one.txt");
    let walker = build_walker(&settings(5, None), &[root_of(&dir)]);
    let visitors = Mutex::new(0usize);
    walker.run(|| {
        *visitors.lock().unwrap() += 1;
        Box::new(|_| ignore::WalkState::Continue)
    });
    // One visitor hands out the roots, and each of the four workers has one.
    assert_eq!(visitors.into_inner().unwrap(), 5);
}

#[test]
fn walker_stops_at_the_maximum_depth() {
    let dir = directory_with("one.txt");
    let walker = build_walker(&settings(2, Some(0)), &[root_of(&dir)]);
    assert_eq!(visited(walker), vec![dir.path().to_str().unwrap().to_string()]);
}

#[test]
fn walker_shows_hidden_and_ignored_files() {
    let dir = directory_with(".hidden");
    let rules = tempfile::NamedTempFile::new_in(dir.path()).unwrap();
    std::io::Write::write_all(&mut rules.as_file(), b"*.log\n").unwrap();
    rules.persist(dir.path().join(".ignore")).unwrap();
    let log = tempfile::NamedTempFile::new_in(dir.path()).unwrap();
    log.persist(dir.path().join("y.log")).unwrap();
    let walker = build_walker(&settings(2, None), &[root_of(&dir)]);
    let mut expected = vec![
        dir.path().to_str().unwrap().to_string(),
        dir.path().join(".hidden").to_str().unwrap().to_string(),
        dir.path().join(".ignore").to_str().unwrap().to_string(),
        dir.path().join("y.log").to_str().unwrap().to_string(),
    ];
    expected.sort();
    assert_eq!(visited(walker), expected);
}

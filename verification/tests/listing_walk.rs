use std::collections::HashMap;

use explorer::listing::{ListQuery, ListStep, Lister, RawEntry};
use explorer::FileInfo;

/// A scripted store: directory reads and metadata reads by path.
struct FakeStore {
    dirs: HashMap<String, Result<Vec<(String, bool)>, String>>,
    sizes: HashMap<String, Result<u64, String>>,
}

impl FakeStore {
    fn new() -> FakeStore {
        FakeStore {
            dirs: HashMap::new(),
            sizes: HashMap::new(),
        }
    }

    fn dir(mut self, path: &str, children: &[(&str, bool)]) -> FakeStore {
        self.dirs.insert(
            String::from(path),
            Ok(children
                .iter()
                .map(|(p, d)| (String::from(*p), *d))
                .collect()),
        );
        self
    }

    fn dir_err(mut self, path: &str, e: &str) -> FakeStore {
        self.dirs.insert(String::from(path), Err(String::from(e)));
        self
    }

    fn size(mut self, path: &str, n: u64) -> FakeStore {
        self.sizes.insert(String::from(path), Ok(n));
        self
    }

    fn size_err(mut self, path: &str, e: &str) -> FakeStore {
        self.sizes.insert(String::from(path), Err(String::from(e)));
        self
    }

    fn run(&self, root: &str) -> Result<Vec<FileInfo>, String> {
        let mut lister = Lister::new(String::from(root));
        loop {
            match lister.step() {
                ListStep::Progress => continue,
                ListStep::Finished => return lister.result(),
                ListStep::Query(ListQuery::ReadDir(p)) => {
                    let answer = self
                        .dirs
                        .get(&p)
                        .cloned()
                        .unwrap_or_else(|| panic!("unscripted dir read: {}", p));
                    lister.feed_dir_read(answer.map(|children| {
                        children
                            .into_iter()
                            .map(|(path, is_directory)| RawEntry { path, is_directory })
                            .collect()
                    }));
                }
                ListStep::Query(ListQuery::Metadata(p)) => {
                    let answer = self
                        .sizes
                        .get(&p)
                        .cloned()
                        .unwrap_or_else(|| panic!("unscripted metadata read: {}", p));
                    lister.feed_metadata(answer);
                }
            }
        }
    }
}

fn summary(entries: &[FileInfo]) -> Vec<(String, u64, bool)> {
    entries
        .iter()
        .map(|e| (e.path.clone(), e.size, e.is_directory))
        .collect()
}

#[test]
fn empty_directory_lists_empty() {
    let store = FakeStore::new().dir("/d", &[]);
    let entries = store.run("/d").unwrap();
    assert!(entries.is_empty());
}

#[test]
fn two_level_listing_with_child_count_and_exact_sizes() {
    // D holds file F and subdirectory S; S holds only file G.
    let store = FakeStore::new()
        .dir("/d", &[("/d/f.txt", false), ("/d/s", true)])
        .dir("/d/s", &[("/d/s/g.bin", false)])
        .size("/d/f.txt", 42)
        .size("/d/s/g.bin", 7);
    let entries = store.run("/d").unwrap();
    assert_eq!(
        summary(&entries),
        vec![
            (String::from("/d/f.txt"), 42, false),
            (String::from("/d/s"), 1, true),
            (String::from("/d/s/g.bin"), 7, false),
        ]
    );
    assert_eq!(entries[0].name, "f.txt");
    assert_eq!(entries[1].name, "s");
    assert_eq!(entries[2].name, "g.bin");
    for e in &entries {
        assert_eq!(e.created, 0);
        assert_eq!(e.modified, 0);
        assert_eq!(e.permissions, "rw");
    }
}

#[test]
fn nested_directory_two_levels_down_has_size_zero() {
    // S holds file G and directory N; N is never read.
    let store = FakeStore::new()
        .dir("/d", &[("/d/s", true)])
        .dir("/d/s", &[("/d/s/g.bin", false), ("/d/s/n", true)])
        .size("/d/s/g.bin", 7);
    let entries = store.run("/d").unwrap();
    assert_eq!(
        summary(&entries),
        vec![
            (String::from("/d/s"), 2, true),
            (String::from("/d/s/g.bin"), 7, false),
            (String::from("/d/s/n"), 0, true),
        ]
    );
}

#[test]
fn root_read_failure_is_fatal() {
    let store = FakeStore::new().dir_err("/d", "timeout");
    let err = store.run("/d").unwrap_err();
    assert_eq!(err, "Failed to read directory '/d': timeout");
}

#[test]
fn subdirectory_read_failure_degrades_to_zero() {
    // The failing subdirectory is counted as zero children and not
    // expanded; its siblings are still listed.
    let store = FakeStore::new()
        .dir("/d", &[("/d/s", true), ("/d/f.txt", false)])
        .dir_err("/d/s", "timeout")
        .size("/d/f.txt", 3);
    let entries = store.run("/d").unwrap();
    assert_eq!(
        summary(&entries),
        vec![
            (String::from("/d/s"), 0, true),
            (String::from("/d/f.txt"), 3, false),
        ]
    );
}

#[test]
fn level_one_metadata_failure_is_fatal() {
    let store = FakeStore::new()
        .dir("/d", &[("/d/f.txt", false)])
        .size_err("/d/f.txt", "gone");
    let err = store.run("/d").unwrap_err();
    assert_eq!(err, "Failed to get metadata for '/d/f.txt': gone");
}

#[test]
fn grandchild_metadata_failure_skips_the_entry() {
    let store = FakeStore::new()
        .dir("/d", &[("/d/s", true)])
        .dir("/d/s", &[("/d/s/bad", false), ("/d/s/ok", false)])
        .size_err("/d/s/bad", "gone")
        .size("/d/s/ok", 9);
    let entries = store.run("/d").unwrap();
    assert_eq!(
        summary(&entries),
        vec![
            (String::from("/d/s"), 2, true),
            (String::from("/d/s/ok"), 9, false),
        ]
    );
}

use explorer::paths::{file_name_of, join_path, last_component, normalized_root, str_eq};

#[test]
fn file_name_takes_last_segment() {
    assert_eq!(file_name_of("/home/user/notes.txt"), "notes.txt");
    assert_eq!(file_name_of("notes.txt"), "notes.txt");
}

#[test]
fn file_name_of_trailing_slash_is_empty() {
    assert_eq!(file_name_of("/home/user/"), "");
    assert_eq!(file_name_of(""), "");
}

#[test]
fn extension_is_last_dot_component() {
    assert_eq!(last_component("archive.tar.gz", '.'), "gz");
    assert_eq!(last_component("noext", '.'), "noext");
    assert_eq!(last_component("trailing.", '.'), "");
}

#[test]
fn join_path_inserts_one_slash() {
    assert_eq!(join_path("/home/user", "file.bin"), "/home/user/file.bin");
    assert_eq!(join_path("", "f"), "/f");
}

#[test]
fn str_eq_compares_by_characters() {
    assert!(str_eq("abc", "abc"));
    assert!(!str_eq("abc", "abd"));
    assert!(!str_eq("abc", "ab"));
    assert!(str_eq("", ""));
}

#[test]
fn listing_root_normalization() {
    assert_eq!(normalized_root(&String::from("")), "/");
    assert_eq!(normalized_root(&String::from("/")), "/");
    assert_eq!(normalized_root(&String::from("/drive/home")), "/drive/home");
}

use flatten_src::entry::is_hidden_or_ignored;
use flatten_src::policy::{get_ignore_dirs, get_ignore_extensions, get_ignore_filenames, str_eq, table_contains};
use flatten_src::writer::{exceeds_size_cap, is_ignored_extension, is_output_file, is_text_file};
use flatten_src::writer::{OutputTarget, MAX_FILE_SIZE, SNIFF_LEN};

#[test]
fn tables_hold_expected_names() {
    let dirs = get_ignore_dirs();
    assert_eq!(dirs.len(), 24);
    assert!(dirs.contains(&".git"));
    assert!(dirs.contains(&"node_modules"));
    assert!(dirs.contains(&".DS_Store"));
    let files = get_ignore_filenames();
    assert_eq!(files.len(), 12);
    assert!(files.contains(&"cargo.lock"));
    let exts = get_ignore_extensions();
    assert_eq!(exts.len(), 42);
    assert!(exts.contains(&".png"));
    assert!(exts.contains(&".md"));
    assert!(exts.iter().all(|e| e.starts_with('.')));
}

#[test]
fn tables_are_the_same_on_every_call() {
    assert_eq!(get_ignore_dirs(), get_ignore_dirs());
    assert_eq!(get_ignore_filenames(), get_ignore_filenames());
    assert_eq!(get_ignore_extensions(), get_ignore_extensions());
}

#[test]
fn table_lookup_is_exact() {
    let t = vec!["abc", "de"];
    assert!(table_contains(&t, "abc"));
    assert!(table_contains(&t, "de"));
    assert!(!table_contains(&t, "ab"));
    assert!(!table_contains(&t, "ABC"));
    assert!(!table_contains(&Vec::new(), ""));
    assert!(str_eq("x", "x"));
    assert!(!str_eq("x", "y"));
}

#[test]
fn hidden_directories_are_pruned() {
    assert!(is_hidden_or_ignored(".git", true));
    assert!(is_hidden_or_ignored(".cache", true));
    assert!(is_hidden_or_ignored(".x", true));
    assert!(!is_hidden_or_ignored(".github", true));
    assert!(!is_hidden_or_ignored(".", true));
    assert!(!is_hidden_or_ignored("", true));
    assert!(!is_hidden_or_ignored("src", true));
}

#[test]
fn ignored_directories_match_case_sensitively() {
    assert!(is_hidden_or_ignored("node_modules", true));
    assert!(is_hidden_or_ignored("target", true));
    assert!(is_hidden_or_ignored("__pycache__", true));
    assert!(!is_hidden_or_ignored("Node_Modules", true));
    assert!(!is_hidden_or_ignored("Target", true));
}

#[test]
fn ignored_file_names_match_case_insensitively() {
    assert!(is_hidden_or_ignored("Cargo.lock", false));
    assert!(is_hidden_or_ignored("GRADLEW", false));
    assert!(is_hidden_or_ignored("Thumbs.db", false));
    assert!(!is_hidden_or_ignored("main.rs", false));
    assert!(!is_hidden_or_ignored("node_modules", false));
    assert!(!is_hidden_or_ignored(".hidden", false));
}

#[test]
fn extension_denylist() {
    assert!(is_ignored_extension(Some("PNG")));
    assert!(is_ignored_extension(Some("png")));
    assert!(is_ignored_extension(Some("md")));
    assert!(is_ignored_extension(Some("Md")));
    assert!(!is_ignored_extension(None));
    assert!(!is_ignored_extension(Some("rs")));
    assert!(!is_ignored_extension(Some("")));
    assert!(!is_ignored_extension(Some(".png")));
}

#[test]
fn size_cap_boundary() {
    assert_eq!(MAX_FILE_SIZE, 1_048_576);
    assert!(!exceeds_size_cap(Some(1_048_576)));
    assert!(exceeds_size_cap(Some(1_048_577)));
    assert!(!exceeds_size_cap(Some(0)));
    assert!(!exceeds_size_cap(None));
    assert!(exceeds_size_cap(Some(u64::MAX)));
}

#[test]
fn binary_sniffing() {
    assert_eq!(SNIFF_LEN, 1024);
    assert!(!is_text_file(None));
    assert!(is_text_file(Some(&[])));
    assert!(is_text_file(Some(b"hello")));
    assert!(!is_text_file(Some(&[b'a', 0, b'b'])));
    let mut late = vec![b'a'; 1024];
    late[1023] = 0;
    assert!(!is_text_file(Some(&late)));
    let mut beyond = vec![b'a'; 1025];
    beyond[1024] = 0;
    assert!(is_text_file(Some(&beyond)));
}

#[test]
fn self_exclusion_by_name_or_path() {
    let out = OutputTarget { file_name: "proj.md".to_string(), abs_path: "/w/proj.md".to_string() };
    assert!(is_output_file(&out, "proj.md", None));
    assert!(is_output_file(&out, "proj.md", Some("/w/proj/proj.md")));
    assert!(is_output_file(&out, "other", Some("/w/proj.md")));
    assert!(!is_output_file(&out, "other", Some("/w/other")));
    assert!(!is_output_file(&out, "other", None));
}

use driftcode::paths::{normalize_dir_path, parent_dir, split_segments};
use driftcode::text::{
    chars_to_string, contains_ascii_ci, contains_str, starts_with_str, str_eq, to_lower_string,
    trim, u16_to_string, u64_to_string,
};

#[test]
fn normalize_keeps_root() {
    assert_eq!(normalize_dir_path("/"), "/");
}

#[test]
fn normalize_strips_trailing_slashes() {
    assert_eq!(normalize_dir_path("/a/"), "/a");
    assert_eq!(normalize_dir_path("/a"), "/a");
    assert_eq!(normalize_dir_path("/a//"), "/a");
    assert_eq!(normalize_dir_path("/home/alice/"), "/home/alice");
    assert_eq!(normalize_dir_path(""), "");
}

#[test]
fn parent_of_nested_path() {
    assert_eq!(parent_dir("/home/alice/x.txt"), Some(String::from("/home/alice")));
    assert_eq!(parent_dir("/home/alice/"), Some(String::from("/home")));
}

#[test]
fn parent_of_top_level_is_root() {
    assert_eq!(parent_dir("/a"), Some(String::from("/")));
}

#[test]
fn parent_of_root_is_none() {
    assert_eq!(parent_dir("/"), None);
}

#[test]
fn split_drops_empty_segments() {
    let parts = split_segments("/a//b/");
    assert_eq!(parts, vec![String::from("a"), String::from("b")]);
}

#[test]
fn trim_strips_ascii_whitespace() {
    assert_eq!(trim("  example.test \t\n"), "example.test");
    assert_eq!(trim("plain"), "plain");
    assert_eq!(trim("   "), "");
}

#[test]
fn decimal_rendering() {
    assert_eq!(u16_to_string(22), "22");
    assert_eq!(u16_to_string(0), "0");
    assert_eq!(u16_to_string(65535), "65535");
    assert_eq!(u64_to_string(1234567890), "1234567890");
}

#[test]
fn case_insensitive_contains() {
    assert!(contains_ascii_ci("the Session CLOSED early", "session closed"));
    assert!(!contains_ascii_ci("session restart", "session closed"));
    assert!(contains_ascii_ci("abc", ""));
}

#[test]
fn case_sensitive_contains() {
    assert!(contains_str("key is encrypted", "encrypted"));
    assert!(!contains_str("key is Encrypted", "encrypted"));
}

#[test]
fn string_helpers() {
    assert!(str_eq("abc", "abc"));
    assert!(!str_eq("abc", "abd"));
    assert!(starts_with_str("SSH-2.0-OpenSSH", "SSH-"));
    assert!(!starts_with_str("SSH", "SSH-"));
    assert_eq!(to_lower_string("TrUe"), "true");
    assert_eq!(chars_to_string(&vec!['h', 'i']), "hi");
}

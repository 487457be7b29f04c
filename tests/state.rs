use eddit::digest::digests_equal;
use eddit::state::ActiveMetadata;

#[test]
fn same_contents_are_unchanged() {
    let m = ActiveMetadata::new(String::from("/home/u/notes.txt"), b"hello world");
    assert!(m.is_same_as(b"hello world"));
}

#[test]
fn different_contents_are_changed() {
    let m = ActiveMetadata::new(String::from("/home/u/notes.txt"), b"hello world");
    assert!(!m.is_same_as(b"hello world!"));
    assert!(!m.is_same_as(b""));
}

#[test]
fn empty_contents_round_trip() {
    let m = ActiveMetadata::new(String::from("a.txt"), b"");
    assert!(m.is_same_as(b""));
    assert!(!m.is_same_as(b" "));
}

#[test]
fn digest_is_keccak512() {
    let m = ActiveMetadata::new(String::from("a.txt"), b"abc");
    let expected = tiny_keccak::keccak512(b"abc");
    assert!(m.matches_digest(&expected));
    let mut plain = [0u8; 64];
    plain[..3].copy_from_slice(b"abc");
    assert!(!m.matches_digest(&plain));
}

#[test]
fn matches_digest_compares_every_byte() {
    let m = ActiveMetadata::new(String::from("a.txt"), b"text");
    let mut d = tiny_keccak::keccak512(b"text");
    assert!(m.matches_digest(&d));
    d[63] ^= 1;
    assert!(!m.matches_digest(&d));
}

#[test]
fn set_sum_records_new_contents() {
    let mut m = ActiveMetadata::new(String::from("/tmp/x.rs"), b"old");
    m.set_sum(b"new");
    assert!(m.is_same_as(b"new"));
    assert!(!m.is_same_as(b"old"));
    assert_eq!(m.get_path(), "/tmp/x.rs");
}

#[test]
fn get_path_returns_path() {
    let m = ActiveMetadata::new(String::from("/var/log/app.log"), b"x");
    assert_eq!(m.get_path(), "/var/log/app.log");
}

#[test]
fn get_dir_of_nested_path() {
    let m = ActiveMetadata::new(String::from("/home/u/notes.txt"), b"x");
    assert_eq!(m.get_dir(), Some(String::from("/home/u")));
}

#[test]
fn get_dir_of_file_at_root() {
    let m = ActiveMetadata::new(String::from("/notes.txt"), b"x");
    assert_eq!(m.get_dir(), Some(String::from("/")));
}

#[test]
fn get_dir_of_bare_name_is_empty() {
    let m = ActiveMetadata::new(String::from("notes.txt"), b"x");
    assert_eq!(m.get_dir(), Some(String::new()));
}

#[test]
fn get_dir_of_root_or_empty_is_none() {
    assert_eq!(ActiveMetadata::new(String::from("/"), b"x").get_dir(), None);
    assert_eq!(ActiveMetadata::new(String::new(), b"x").get_dir(), None);
}

#[test]
fn digests_equal_on_arrays() {
    let a = [7u8; 64];
    let mut b = [7u8; 64];
    assert!(digests_equal(&a, &b));
    b[0] = 8;
    assert!(!digests_equal(&a, &b));
}

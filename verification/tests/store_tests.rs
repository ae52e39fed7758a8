use typst_world::ids::FileKey;
use typst_world::registry::Registry;
use typst_world::store::FileError;

fn key(path: &str) -> FileKey {
    FileKey::new(None, path.to_string())
}

#[test]
fn fetched_file_is_insert_if_absent() {
    let mut reg = Registry::new();
    reg.register_fetched_file(key("data.bin"), vec![1u8, 2, 3]);
    reg.register_fetched_file(key("data.bin"), vec![9u8, 9]);
    let b = reg.bytes_of(&key("data.bin")).unwrap();
    assert_eq!(b.as_slice(), &[1u8, 2, 3]);
}

#[test]
fn source_registration_overwrites() {
    let mut reg = Registry::new();
    reg.add_source("one".to_string(), key("doc.typ"));
    reg.add_source("two".to_string(), key("doc.typ"));
    let s = reg.source_of(&key("doc.typ")).unwrap();
    assert_eq!(s.text(), "two");
    let b = reg.bytes_of(&key("doc.typ")).unwrap();
    assert_eq!(b.as_slice(), "two".as_bytes());
}

#[test]
fn missing_lookup_is_defined_failure() {
    let reg = Registry::new();
    assert_eq!(reg.source_of(&key("nope")).unwrap_err(), FileError::NotFound);
    assert_eq!(reg.bytes_of(&key("nope")).unwrap_err(), FileError::NotFound);
}

#[test]
fn invalid_text_is_decode_error_not_panic() {
    let mut reg = Registry::new();
    reg.register_fetched_file(key("bin"), vec![0xffu8, 0xfe, 0x00]);
    assert_eq!(reg.source_of(&key("bin")).unwrap_err(), FileError::InvalidEncoding);
    assert!(reg.bytes_of(&key("bin")).is_ok());
}

#[test]
fn fetched_file_decodes_text_source() {
    let mut reg = Registry::new();
    reg.register_fetched_file(key("note.txt"), b"hello".to_vec());
    let s = reg.source_of(&key("note.txt")).unwrap();
    assert_eq!(s.text(), "hello");
    let b = reg.bytes_of(&key("note.txt")).unwrap();
    assert_eq!(b.as_slice(), b"hello");
}

#[test]
fn set_source_registers_main() {
    let mut reg = Registry::new();
    assert_eq!(reg.main_source().unwrap_err(), FileError::NotFound);
    reg.set_source("= Title".to_string());
    assert_eq!(reg.main_source().unwrap().text(), "= Title");
    assert_eq!(reg.source_of(&key("main.typ")).unwrap().text(), "= Title");
}

#[test]
fn set_source_overwrites_main() {
    let mut reg = Registry::new();
    reg.set_source("first".to_string());
    reg.set_source("second".to_string());
    assert_eq!(reg.main_source().unwrap().text(), "second");
}

#[test]
fn namespaced_keys_are_distinct() {
    let mut reg = Registry::new();
    reg.register_fetched_file(
        FileKey::new(Some("pkg".to_string()), "a".to_string()),
        vec![1u8],
    );
    assert!(reg.bytes_of(&FileKey::new(None, "a".to_string())).is_err());
    assert!(reg.bytes_of(&FileKey::new(Some("pkg".to_string()), "a".to_string())).is_ok());
}

#[test]
fn empty_source_text_is_kept() {
    let mut reg = Registry::new();
    reg.add_source(String::new(), key("empty.typ"));
    assert_eq!(reg.source_of(&key("empty.typ")).unwrap().text(), "");
    assert_eq!(reg.bytes_of(&key("empty.typ")).unwrap().as_slice(), b"");
}

#[test]
fn empty_fetched_file_is_kept() {
    let mut reg = Registry::new();
    reg.register_fetched_file(key("empty.bin"), Vec::new());
    assert_eq!(reg.bytes_of(&key("empty.bin")).unwrap().as_slice(), b"");
    assert_eq!(reg.source_of(&key("empty.bin")).unwrap().text(), "");
}

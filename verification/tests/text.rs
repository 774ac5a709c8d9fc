use slangmake::text::{
    c_string_bytes, checked_text, cstring, lossy_or_empty, path_cstring, text_or_empty,
};
use std::path::PathBuf;
use slangmake::Error;

#[test]
fn options_string_with_nul_is_refused() {
    let err = cstring("BAD\0NAME").unwrap_err();
    assert!(matches!(err, Error::StringNul));
}

#[test]
fn cstring_appends_terminator() {
    assert_eq!(cstring("main").unwrap(), b"main\0".to_vec());
    assert_eq!(cstring("").unwrap(), vec![0u8]);
    assert_eq!(cstring("é").unwrap(), vec![0xC3, 0xA9, 0]);
}

#[test]
fn c_string_bytes_detects_trailing_nul() {
    assert!(c_string_bytes("abc\0").is_none());
    assert!(c_string_bytes("\0").is_none());
    assert_eq!(c_string_bytes("abc"), Some(b"abc\0".to_vec()));
}

#[test]
fn text_or_empty_reads_valid_utf8() {
    assert_eq!(text_or_empty(Some(b"shaders/lit.slang")), "shaders/lit.slang");
    assert_eq!(text_or_empty(Some("héllo".as_bytes())), "héllo");
}

#[test]
fn text_or_empty_defaults_on_null_and_invalid() {
    assert_eq!(text_or_empty(None), "");
    assert_eq!(text_or_empty(Some(&[0x66, 0xFF, 0x66])), "");
    assert_eq!(text_or_empty(Some(&[])), "");
}

#[test]
fn lossy_or_empty_replaces_invalid_bytes() {
    assert_eq!(lossy_or_empty(None), "");
    assert_eq!(lossy_or_empty(Some(b"error: x")), "error: x");
    assert_eq!(lossy_or_empty(Some(&[b'a', b'b', 0xFF])), "ab\u{FFFD}");
}

#[test]
fn checked_text_reports_utf8_errors() {
    assert_eq!(checked_text(None).unwrap(), "");
    assert_eq!(checked_text(Some(b"A=1;B=2")).unwrap(), "A=1;B=2");
    assert!(matches!(checked_text(Some(&[0xC3])), Err(Error::Utf8(_))));
}

#[test]
fn path_with_nul_is_refused_with_its_path() {
    match path_cstring("dir/a\0b.slang", PathBuf::from("dir/a\0b.slang")).unwrap_err() {
        Error::PathNul { path } => assert_eq!(path, PathBuf::from("dir/a\0b.slang")),
        other => panic!("unexpected {other:?}"),
    }
    assert_eq!(
        path_cstring("out/test.slangbin", PathBuf::from("out/test.slangbin")).unwrap(),
        b"out/test.slangbin\0".to_vec()
    );
}

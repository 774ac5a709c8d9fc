use slangmake::compiler::CompileResult;
use slangmake::error::StatusCodes;
use slangmake::runtime::{dependency_cstrings, optional_index, BlobEntry, DependencyInfo};
use slangmake::{Buffer, Error};

#[test]
fn buffer_exposes_its_bytes() {
    let buf = Buffer::from_vec(vec![1, 2, 3]);
    assert_eq!(buf.len(), 3);
    assert!(!buf.is_empty());
    assert_eq!(buf.as_slice(), &[1, 2, 3]);
    assert_eq!(buf.to_vec(), vec![1, 2, 3]);
}

#[test]
fn empty_buffer_is_empty() {
    let buf = Buffer::from_vec(Vec::new());
    assert!(buf.is_empty());
    assert_eq!(buf.len(), 0);
    assert!(buf.to_vec().is_empty());
}

#[test]
fn blob_entry_keeps_its_parts() {
    let code: Vec<u8> = (0..32u8).collect();
    let refl = vec![0xAA; 16];
    let entry = BlobEntry::from_parts(Some(b"MODE=FAST"), Some(&code), Some(&refl), Some(&[0, 1]));
    assert_eq!(entry.key(), "MODE=FAST");
    assert_eq!(entry.code(), code.as_slice());
    assert_eq!(entry.reflection(), refl.as_slice());
    assert_eq!(entry.dep_indices(), &[0u32, 1]);
}

#[test]
fn blob_entry_absent_parts_read_empty() {
    let entry = BlobEntry::from_parts(None, None, None, None);
    assert_eq!(entry.key(), "");
    assert!(entry.code().is_empty());
    assert!(entry.reflection().is_empty());
    assert!(entry.dep_indices().is_empty());
    let bad_key = BlobEntry::from_parts(Some(&[0xFF, 0xFE]), Some(b"payload"), None, None);
    assert_eq!(bad_key.key(), "");
    assert_eq!(bad_key.code(), b"payload");
}

#[test]
fn dependency_table_is_encoded_in_order() {
    let deps = vec![
        DependencyInfo { path: "shaders/lit.slang".into(), content_hash: 1 },
        DependencyInfo { path: "shaders/common.slang".into(), content_hash: 2 },
    ];
    let table = dependency_cstrings(&deps).unwrap();
    assert_eq!(table.len(), 2);
    assert_eq!(table[0], (b"shaders/lit.slang\0".to_vec(), 1));
    assert_eq!(table[1], (b"shaders/common.slang\0".to_vec(), 2));
    assert!(dependency_cstrings(&[]).unwrap().is_empty());
}

#[test]
fn dependency_table_refuses_nul_path() {
    let deps = vec![
        DependencyInfo { path: "ok.slang".into(), content_hash: 1 },
        DependencyInfo { path: "bad\0.slang".into(), content_hash: 2 },
    ];
    assert!(matches!(dependency_cstrings(&deps), Err(Error::StringNul)));
}

#[test]
fn failed_compile_preserves_diagnostics() {
    let err = CompileResult::from_outcome(
        false,
        Some(b"error: undefined identifier"),
        Some(b"ignored"),
        None,
        &[],
    )
    .unwrap_err();
    match err {
        Error::Compile { diagnostics } => assert_eq!(diagnostics, "error: undefined identifier"),
        other => panic!("unexpected {other:?}"),
    }
    match CompileResult::from_outcome(false, None, None, None, &[]).unwrap_err() {
        Error::Compile { diagnostics } => assert!(diagnostics.is_empty()),
        other => panic!("unexpected {other:?}"),
    }
    match CompileResult::from_outcome(false, Some(&[b'x', 0xFF]), None, None, &[]).unwrap_err() {
        Error::Compile { diagnostics } => assert_eq!(diagnostics, "x\u{FFFD}"),
        other => panic!("unexpected {other:?}"),
    }
}

#[test]
fn successful_compile_keeps_output() {
    let code = [0x03u8, 0x02, 0x23, 0x07];
    let deps: Vec<Option<&[u8]>> = vec![Some(b"ok.slang"), None, Some(&[0xFF])];
    let result = CompileResult::from_outcome(true, Some(b"warning"), Some(&code), Some(b"R"), &deps).unwrap();
    assert_eq!(result.code(), &code);
    assert_eq!(result.reflection(), b"R");
    assert_eq!(result.diagnostics(), "warning");
    assert_eq!(result.dependencies(), vec!["ok.slang", "", ""]);
    let bare = CompileResult::from_outcome(true, Some(&[0xFF]), None, None, &[]).unwrap();
    assert!(bare.code().is_empty());
    assert_eq!(bare.diagnostics(), "");
    assert!(bare.dependencies().is_empty());
}

#[test]
fn lookup_entry_present_only_on_ok() {
    let codes = StatusCodes { ok: 0, invalid_handle: -1, invalid_arg: -2, not_found: -3, io: -4 };
    let found = BlobEntry::from_lookup(0, &codes, Some(b"Q=1"), Some(b"payload"), None, None).unwrap();
    assert_eq!(found.key(), "Q=1");
    assert_eq!(found.code(), b"payload");
    assert!(BlobEntry::from_lookup(-3, &codes, Some(b"Q=1"), Some(b"payload"), None, None).is_none());
    assert!(BlobEntry::from_lookup(5, &codes, None, None, None, None).is_none());
}

#[test]
fn invalid_index_reads_as_absent() {
    assert_eq!(optional_index(u32::MAX, u32::MAX), None);
    assert_eq!(optional_index(3, u32::MAX), Some(3));
    assert_eq!(optional_index(u32::MAX - 1, u32::MAX), Some(u32::MAX - 1));
}

#[test]
fn upstream_buffer_absent_or_empty_reads_empty() {
    let absent = Buffer::from_upstream(None, 0);
    assert!(absent.is_empty());
    assert_eq!(absent.len(), 0);
    assert!(absent.as_slice().is_empty());
    let null_data = Buffer::from_upstream(None, 5);
    assert_eq!(null_data.len(), 5);
    assert!(!null_data.is_empty());
    assert!(null_data.as_slice().is_empty());
    assert!(null_data.to_vec().is_empty());
    let zero_size = Buffer::from_upstream(Some(&[1, 2]), 0);
    assert!(zero_size.is_empty());
    assert!(zero_size.as_slice().is_empty());
    let full = Buffer::from_upstream(Some(&[9, 8, 7]), 3);
    assert_eq!(full.as_slice(), &[9, 8, 7]);
    assert_eq!(full.len(), 3);
    assert_eq!(full.to_vec(), vec![9, 8, 7]);
}

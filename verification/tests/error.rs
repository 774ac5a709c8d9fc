use slangmake::error::{check_status, check_valid, nonnull, StatusCodes};
use slangmake::Error;

const CODES: StatusCodes = StatusCodes {
    ok: 0,
    invalid_handle: -1,
    invalid_arg: -2,
    not_found: -3,
    io: -4,
};

#[test]
fn status_ok_is_success() {
    assert!(check_status(0, &CODES, "sm_call", String::from("ignored")).is_ok());
}

#[test]
fn status_codes_map_to_their_variants() {
    match check_status(-1, &CODES, "sm_a", String::from("bad handle")).unwrap_err() {
        Error::InvalidHandle { context, message } => {
            assert_eq!(context, "sm_a");
            assert_eq!(message, "bad handle");
        }
        other => panic!("unexpected {other:?}"),
    }
    match check_status(-2, &CODES, "sm_b", String::from("m")).unwrap_err() {
        Error::InvalidArg { context, message } => {
            assert_eq!(context, "sm_b");
            assert_eq!(message, "m");
        }
        other => panic!("unexpected {other:?}"),
    }
    match check_status(-3, &CODES, "sm_c", String::new()).unwrap_err() {
        Error::NotFound { context, message } => {
            assert_eq!(context, "sm_c");
            assert_eq!(message, "");
        }
        other => panic!("unexpected {other:?}"),
    }
    match check_status(-4, &CODES, "sm_blob_writer_write_to_file", String::from("disk")).unwrap_err() {
        Error::Io { context, message } => {
            assert_eq!(context, "sm_blob_writer_write_to_file");
            assert_eq!(message, "disk");
        }
        other => panic!("unexpected {other:?}"),
    }
}

#[test]
fn unknown_status_is_internal() {
    match check_status(-99, &CODES, "sm_d", String::from("x")).unwrap_err() {
        Error::Internal { context, message } => {
            assert_eq!(context, "sm_d");
            assert_eq!(message, "x");
        }
        other => panic!("unexpected {other:?}"),
    }
    assert!(matches!(
        check_status(7, &CODES, "sm_d", String::new()),
        Err(Error::Internal { .. })
    ));
}

#[test]
fn nonnull_passes_handle_through() {
    assert_eq!(nonnull(Some(42u32), "sm_x_create", String::new()).unwrap(), 42);
}

#[test]
fn nonnull_reports_null_handle() {
    match nonnull::<u32>(None, "sm_permutation_create", String::from("out of memory")).unwrap_err() {
        Error::NullHandle { context, message } => {
            assert_eq!(context, "sm_permutation_create");
            assert_eq!(message, "out of memory");
        }
        other => panic!("unexpected {other:?}"),
    }
}

#[test]
fn validity_flag_decides_blob_validity() {
    assert!(check_valid(1, Error::InvalidBlob).is_ok());
    assert!(check_valid(-7, Error::InvalidBlob).is_ok());
    assert!(matches!(check_valid(0, Error::InvalidBlob), Err(Error::InvalidBlob)));
    assert!(matches!(
        check_valid(0, Error::InvalidReflection),
        Err(Error::InvalidReflection)
    ));
}

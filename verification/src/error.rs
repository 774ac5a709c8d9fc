//! The error type of every fallible operation, and the decisions that turn
//! the C ABI's status codes and null handles into it.

use vstd::prelude::*;

verus! {

#[verifier::external_type_specification]
#[verifier::external_body]
pub struct ExUtf8Error(std::str::Utf8Error);

#[verifier::external_type_specification]
#[verifier::external_body]
pub struct ExPathBuf(std::path::PathBuf);

/// Error returned by every fallible operation.
///
/// Variants mirror the `SM_ERR_*` status codes published by the C ABI plus a
/// few cases of the wrapper itself (interior NUL bytes, UTF-8 decoding,
/// malformed blobs). Each status-style variant carries a static `context`
/// label naming the upstream entrypoint that failed and a free-form
/// `message`, the thread-local diagnostic that upstream recorded.
#[derive(Debug)]
pub enum Error {
    InvalidHandle { context: &'static str, message: String },
    InvalidArg { context: &'static str, message: String },
    NotFound { context: &'static str, message: String },
    Io { context: &'static str, message: String },
    Internal { context: &'static str, message: String },
    Compile { diagnostics: String },
    InvalidBlob,
    InvalidReflection,
    NullHandle { context: &'static str, message: String },
    Utf8(std::str::Utf8Error),
    PathNul { path: std::path::PathBuf },
    StringNul,
}

/// Every fallible API returns `Result<T>` with [`Error`] as the default
/// error type.
pub type Result<T, E = Error> = core::result::Result<T, E>;

/// The numeric status codes of the C ABI (`SM_OK` and the `SM_ERR_*`
/// family), as the bindings publish them.
#[derive(Debug, Clone, Copy)]
pub struct StatusCodes {
    pub ok: i32,
    pub invalid_handle: i32,
    pub invalid_arg: i32,
    pub not_found: i32,
    pub io: i32,
}

/// Maps a status code returned by an upstream call to a [`Result`].
///
/// `SM_OK` is success; each known error code becomes its variant, and any
/// other code is an internal error. The codes are tested in the order `ok`,
/// `invalid_handle`, `invalid_arg`, `not_found`, `io`. `context` names the
/// failing entrypoint; `message` is the diagnostic upstream recorded for the
/// call, which the error carries unchanged.
pub fn check_status(
    status: i32,
    codes: &StatusCodes,
    context: &'static str,
    message: String,
) -> (r: Result<()>)
    ensures
        status == codes.ok ==> r == Ok::<(), Error>(()),
        status != codes.ok && status == codes.invalid_handle ==> r == Err::<(), Error>(
            Error::InvalidHandle { context, message },
        ),
        status != codes.ok && status != codes.invalid_handle && status == codes.invalid_arg ==> r
            == Err::<(), Error>(Error::InvalidArg { context, message }),
        status != codes.ok && status != codes.invalid_handle && status != codes.invalid_arg
            && status == codes.not_found ==> r == Err::<(), Error>(
            Error::NotFound { context, message },
        ),
        status != codes.ok && status != codes.invalid_handle && status != codes.invalid_arg
            && status != codes.not_found && status == codes.io ==> r == Err::<(), Error>(
            Error::Io { context, message },
        ),
        status != codes.ok && status != codes.invalid_handle && status != codes.invalid_arg
            && status != codes.not_found && status != codes.io ==> r == Err::<(), Error>(
            Error::Internal { context, message },
        ),
{
    if status == codes.ok {
        Ok(())
    } else if status == codes.invalid_handle {
        Err(Error::InvalidHandle { context, message })
    } else if status == codes.invalid_arg {
        Err(Error::InvalidArg { context, message })
    } else if status == codes.not_found {
        Err(Error::NotFound { context, message })
    } else if status == codes.io {
        Err(Error::Io { context, message })
    } else {
        Err(Error::Internal { context, message })
    }
}

/// Turns the handle an upstream constructor returned into a [`Result`]:
/// `None` stands for the null pointer, which becomes
/// [`Error::NullHandle`] carrying `context` and the recorded `message`.
pub fn nonnull<T>(handle: Option<T>, context: &'static str, message: String) -> (r: Result<T>)
    ensures
        match handle {
            Some(h) => r == Ok::<T, Error>(h),
            None => r == Err::<T, Error>(Error::NullHandle { context, message }),
        },
{
    match handle {
        Some(h) => Ok(h),
        None => Err(Error::NullHandle { context, message }),
    }
}

/// Turns the validity flag upstream reports for an opened blob or
/// reflection blob into a [`Result`]: a nonzero flag means valid, zero
/// means the bytes failed validation and gives `invalid`.
pub fn check_valid(valid: i32, invalid: Error) -> (r: Result<()>)
    ensures
        valid != 0 ==> r == Ok::<(), Error>(()),
        valid == 0 ==> r == Err::<(), Error>(invalid),
{
    if valid != 0 {
        Ok(())
    } else {
        Err(invalid)
    }
}

} // verus!

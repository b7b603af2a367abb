//! The error type of this crate, its rendering and its source, and the
//! standard-library errors that it carries.

use vstd::prelude::*;

use core::str::Utf8Error;
use vstd::string::to_string_from_display_ensures;
use crate::text::{decimal, push_decimal};

verus! {

/// `std::io::Error`, carried opaquely inside [`Error::Os`].
#[verifier::external_type_specification]
#[verifier::external_body]
pub struct ExIoError(std::io::Error);

/// `core::str::Utf8Error`, carried opaquely inside [`Error::Utf8`].
#[verifier::external_type_specification]
#[verifier::external_body]
pub struct ExUtf8Error(core::str::Utf8Error);

/// Errors returned by this crate.
///
/// Marked `#[non_exhaustive]` so further variants can be added without a
/// breaking release.
#[non_exhaustive]
#[derive(Debug)]
pub enum Error {
    /// A libnvme call failed at the OS level. The wrapped [`std::io::Error`]
    /// captures the platform's `errno`.
    Os(std::io::Error),
    /// libnvme returned NULL or a sentinel indicating the requested value
    /// is not set on this handle.
    NotAvailable,
    /// A C string returned by libnvme contained invalid UTF-8.
    Utf8(Utf8Error),
    /// The device completed the command with this NVMe status (the positive
    /// return value of a libnvme command).
    Nvme(u32),
}

/// Result type alias for fallible operations in this crate.
pub type Result<T> = core::result::Result<T, Error>;

/// The underlying cause of an [`Error`], as returned by [`Error::source`].
#[derive(Debug)]
pub enum ErrorSource<'a> {
    /// The operating-system error inside [`Error::Os`].
    Io(&'a std::io::Error),
    /// The decoding error inside [`Error::Utf8`].
    Utf8(&'a Utf8Error),
}

/// The text that every rendering of an [`Error`] starts with.
pub open spec fn error_prefix() -> Seq<char> {
    seq!['l', 'i', 'b', 'n', 'v', 'm', 'e', ':', ' ']
}

/// The full rendering of [`Error::NotAvailable`].
pub open spec fn not_available_text() -> Seq<char> {
    error_prefix() + seq![
        'v', 'a', 'l', 'u', 'e', ' ', 'n', 'o', 't', ' ', 'a', 'v', 'a', 'i', 'l', 'a', 'b', 'l', 'e',
    ]
}

/// The full rendering of [`Error::Nvme`] for the given status: the status
/// in decimal.
pub open spec fn nvme_status_text(status: u32) -> Seq<char> {
    error_prefix() + seq!['N', 'V', 'M', 'e', ' ', 's', 't', 'a', 't', 'u', 's', ' '] + decimal(
        status as nat,
    )
}

/// The text that the rendering of [`Error::Utf8`] starts with.
pub open spec fn invalid_utf8_prefix() -> Seq<char> {
    error_prefix() + seq![
        'i', 'n', 'v', 'a', 'l', 'i', 'd', ' ', 'U', 'T', 'F', '-', '8', ':', ' ',
    ]
}

impl Error {
    /// The underlying error, if any: the `std::io::Error` of `Os`, the
    /// `Utf8Error` of `Utf8`, nothing for `NotAvailable` and `Nvme`.
    pub fn source(&self) -> (r: Option<ErrorSource<'_>>)
        ensures
            r is None <==> (*self is NotAvailable || *self is Nvme),
            *self is Os ==> (r matches Some(ErrorSource::Io(e)) && *e == self->Os_0),
            *self is Utf8 ==> (r matches Some(ErrorSource::Utf8(e)) && *e == self->Utf8_0),
    {
        match self {
            Error::Os(e) => Some(ErrorSource::Io(e)),
            Error::Utf8(e) => Some(ErrorSource::Utf8(e)),
            Error::NotAvailable => None,
            Error::Nvme(_) => None,
        }
    }

    /// Human-readable rendering: `libnvme: ` followed by the OS error text,
    /// `value not available`, `invalid UTF-8: ` and the decoding error, or
    /// `NVMe status ` and the status in decimal.
    pub fn to_string(&self) -> (r: String)
        ensures
            error_prefix().is_prefix_of(r@),
            *self is NotAvailable ==> r@ == not_available_text(),
            *self is Nvme ==> r@ == nvme_status_text(self->Nvme_0),
            *self is Os ==> exists|d: String|
                to_string_from_display_ensures::<std::io::Error>(&self->Os_0, d) && r@
                    == error_prefix() + d@,
            *self is Utf8 ==> exists|d: String|
                to_string_from_display_ensures::<Utf8Error>(&self->Utf8_0, d) && r@
                    == invalid_utf8_prefix() + d@,
    {
        match self {
            Error::Os(e) => {
                let detail = e.to_string();
                let head = String::from_str("libnvme: ");
                proof {
                    reveal_strlit("libnvme: ");
                    assert(head@ =~= error_prefix());
                }
                let r = head.concat(detail.as_str());
                assert(r@.subrange(0, 9) =~= error_prefix());
                r
            },
            Error::NotAvailable => {
                let r = String::from_str("libnvme: value not available");
                proof {
                    reveal_strlit("libnvme: value not available");
                    assert(r@ =~= not_available_text());
                    assert(r@.subrange(0, 9) =~= error_prefix());
                }
                r
            },
            Error::Utf8(e) => {
                let detail = e.to_string();
                let head = String::from_str("libnvme: invalid UTF-8: ");
                proof {
                    reveal_strlit("libnvme: invalid UTF-8: ");
                    assert(head@ =~= invalid_utf8_prefix());
                }
                let r = head.concat(detail.as_str());
                assert(r@.subrange(0, 24) =~= invalid_utf8_prefix());
                assert(r@.subrange(0, 9) =~= error_prefix());
                r
            },
            Error::Nvme(status) => {
                let mut r = String::from_str("libnvme: NVMe status ");
                proof {
                    reveal_strlit("libnvme: NVMe status ");
                }
                push_decimal(&mut r, *status as u128);
                assert(r@ =~= nvme_status_text(*status));
                assert(r@.subrange(0, 9) =~= error_prefix());
                r
            },
        }
    }
}

/// Calls `std::io::Error::last_os_error`, the error for the calling
/// thread's current `errno`. What it returns depends on the state of the
/// process, so nothing is stated of it.
#[verifier::external_body]
pub(crate) fn last_os_error() -> std::io::Error {
    std::io::Error::last_os_error()
}

/// The error that `std::io::Error::from_raw_os_error` builds for an OS
/// error code.
pub uninterp spec fn os_error_for_code(code: i32) -> std::io::Error;

/// Calls `std::io::Error::from_raw_os_error`, which records `code` and
/// nothing else, so the result is named by the code alone. What the error
/// reports (its `raw_os_error`, kind and text) is not stated.
#[verifier::external_body]
pub(crate) fn os_error_from_code(code: i32) -> (e: std::io::Error)
    ensures
        e == os_error_for_code(code),
{
    std::io::Error::from_raw_os_error(code)
}

/// The error that `std::io::Error::new(std::io::ErrorKind::InvalidInput,
/// msg)` builds: an error of kind `InvalidInput` carrying the message `msg`.
/// The kind is part of what this name stands for.
pub uninterp spec fn invalid_input_error(msg: Seq<char>) -> std::io::Error;

/// Calls `std::io::Error::new(std::io::ErrorKind::InvalidInput, msg)`. The
/// kind is always `ErrorKind::InvalidInput`, and the error holds that kind
/// and the message and nothing else, so the result is named by the message
/// through [`invalid_input_error`]. `std::io::Error` is opaque here, so what
/// it reports (its `kind()` and text) is not stated as values.
#[verifier::external_body]
pub(crate) fn invalid_input(msg: &'static str) -> (e: std::io::Error)
    ensures
        e == invalid_input_error(msg@),
{
    std::io::Error::new(std::io::ErrorKind::InvalidInput, msg)
}

impl From<std::io::Error> for Error {
    fn from(e: std::io::Error) -> (r: Self) {
        Error::Os(e)
    }
}

impl vstd::std_specs::convert::FromSpecImpl<std::io::Error> for Error {
    open spec fn obeys_from_spec() -> bool {
        true
    }

    open spec fn from_spec(v: std::io::Error) -> Self {
        Error::Os(v)
    }
}

impl From<Utf8Error> for Error {
    fn from(e: Utf8Error) -> (r: Self) {
        Error::Utf8(e)
    }
}

impl vstd::std_specs::convert::FromSpecImpl<Utf8Error> for Error {
    open spec fn obeys_from_spec() -> bool {
        true
    }

    open spec fn from_spec(v: Utf8Error) -> Self {
        Error::Utf8(v)
    }
}

} // verus!

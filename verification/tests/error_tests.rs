use std::io;

use lib::{Error, ErrorSource};

fn enoent() -> Error {
    io::Error::from_raw_os_error(2).into()
}

#[test]
fn display_has_libnvme_prefix() {
    assert!(enoent().to_string().starts_with("libnvme: "));
}

#[test]
fn source_is_inner_io_error() {
    let err = enoent();
    let source = err.source().expect("source should exist");
    assert!(matches!(source, ErrorSource::Io(_)));
}

#[test]
fn from_io_error_yields_os_variant() {
    assert!(matches!(enoent(), Error::Os(_)));
}

#[test]
fn not_available_has_no_source() {
    let err = Error::NotAvailable;
    assert!(err.source().is_none());
}

#[test]
#[allow(invalid_from_utf8)]
fn utf8_error_displays_with_prefix() {
    let bad = std::str::from_utf8(&[0xFFu8, 0xFE]).unwrap_err();
    let err: Error = bad.into();
    assert!(err.to_string().starts_with("libnvme: invalid UTF-8"));
}

#[test]
fn not_available_renders_exactly() {
    assert_eq!(Error::NotAvailable.to_string(), "libnvme: value not available");
}

#[test]
fn os_error_renders_os_text_after_prefix() {
    let err = enoent();
    let inner = io::Error::from_raw_os_error(2).to_string();
    assert_eq!(err.to_string(), format!("libnvme: {inner}"));
}

#[test]
fn utf8_source_is_inner_utf8_error() {
    #[allow(invalid_from_utf8)]
    let bad = std::str::from_utf8(&[0xC3u8]).unwrap_err();
    let err: Error = bad.into();
    match err.source() {
        Some(ErrorSource::Utf8(e)) => assert_eq!(e.valid_up_to(), 0),
        _ => panic!("expected a UTF-8 source"),
    }
}

#[test]
fn os_source_keeps_errno() {
    let err = enoent();
    match err.source() {
        Some(ErrorSource::Io(e)) => assert_eq!(e.raw_os_error(), Some(2)),
        _ => panic!("expected an io source"),
    }
}

#[test]
fn nvme_status_renders_in_decimal() {
    assert_eq!(Error::Nvme(0x4002).to_string(), "libnvme: NVMe status 16386");
    assert_eq!(Error::Nvme(0).to_string(), "libnvme: NVMe status 0");
}

#[test]
fn nvme_status_has_no_source() {
    assert!(Error::Nvme(2).source().is_none());
}

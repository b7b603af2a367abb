use lib::{cstr_to_str, cstr_to_string, fixed_ascii_to_str, trim_trailing_padding, Error};

#[test]
fn trims_trailing_spaces() {
    assert_eq!(trim_trailing_padding(b"hello   "), b"hello");
}

#[test]
fn trims_trailing_nuls() {
    assert_eq!(trim_trailing_padding(b"hello\0\0"), b"hello");
}

#[test]
fn trims_mixed_padding() {
    assert_eq!(trim_trailing_padding(b"abc \0 \0"), b"abc");
}

#[test]
fn empty_input_stays_empty() {
    assert_eq!(trim_trailing_padding(b""), b"");
}

#[test]
fn all_padding_yields_empty() {
    assert_eq!(trim_trailing_padding(b"   "), b"");
}

#[test]
fn preserves_internal_spaces() {
    assert_eq!(trim_trailing_padding(b"a b  "), b"a b");
}

#[test]
fn fixed_ascii_decodes_padded_field() {
    let raw: [u8; 8] = [b'm', b'o', b'd', b' ', 0, 0, 0, 0];
    assert_eq!(fixed_ascii_to_str(&raw).unwrap(), "mod");
}

#[test]
fn trims_every_ascii_whitespace_kind() {
    assert_eq!(trim_trailing_padding(b"x\t\n\x0c\r \0"), b"x");
}

#[test]
fn vertical_tab_is_not_padding() {
    assert_eq!(trim_trailing_padding(b"x\x0b"), b"x\x0b");
}

#[test]
fn leading_padding_is_kept() {
    assert_eq!(trim_trailing_padding(b"  x  "), b"  x");
}

#[test]
fn trimming_twice_is_trimming_once() {
    let once = trim_trailing_padding(b"serial \0 ");
    assert_eq!(trim_trailing_padding(once), once);
}

#[test]
fn appended_padding_does_not_change_trim() {
    assert_eq!(
        trim_trailing_padding(b"fw1.0\0\0\0  "),
        trim_trailing_padding(b"fw1.0")
    );
}

#[test]
fn fixed_ascii_rejects_invalid_utf8() {
    let raw: [u8; 4] = [b'a', 0xFF, b' ', 0];
    assert!(matches!(fixed_ascii_to_str(&raw), Err(Error::Utf8(_))));
}

#[test]
fn fixed_ascii_accepts_utf8_field() {
    let raw = "caf\u{e9}  ".as_bytes();
    assert_eq!(fixed_ascii_to_str(raw).unwrap(), "caf\u{e9}");
}

#[test]
fn cstr_null_is_not_available() {
    assert!(matches!(cstr_to_str(None), Err(Error::NotAvailable)));
}

#[test]
fn cstr_is_trimmed() {
    assert_eq!(cstr_to_str(Some(b"QEMU NVMe Ctrl   ")).unwrap(), "QEMU NVMe Ctrl");
}

#[test]
fn cstr_invalid_utf8_is_utf8_error() {
    assert!(matches!(cstr_to_str(Some(&[0xC3u8])), Err(Error::Utf8(_))));
}

#[test]
fn owned_cstr_null_is_not_available() {
    assert!(matches!(cstr_to_string(None), Err(Error::NotAvailable)));
}

#[test]
fn owned_cstr_is_not_trimmed() {
    assert_eq!(
        cstr_to_string(Some(b"nqn.2014-08.org.nvmexpress:uuid:1 ")).unwrap(),
        "nqn.2014-08.org.nvmexpress:uuid:1 "
    );
}

#[test]
fn owned_cstr_invalid_utf8_is_utf8_error() {
    assert!(matches!(cstr_to_string(Some(&[0xFFu8])), Err(Error::Utf8(_))));
}

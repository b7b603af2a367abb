use lib::command::{
    check_c_string, check_fd, check_handle, check_host_id_len, check_host_names, check_ret,
    controller_list, error_log_len, eui64_or_zero, nguid_or_zero, size_bytes,
};
use lib::Error;

#[test]
fn fd_non_negative_is_kept() {
    assert_eq!(check_fd(0).unwrap(), 0);
    assert_eq!(check_fd(7).unwrap(), 7);
}

#[test]
fn fd_negative_is_os_error() {
    assert!(matches!(check_fd(-1), Err(Error::Os(_))));
}

#[test]
fn handle_presence() {
    assert!(check_handle(true).is_ok());
    assert!(matches!(check_handle(false), Err(Error::Os(_))));
}

#[test]
fn ret_zero_is_ok() {
    assert!(check_ret(0).is_ok());
}

#[test]
fn ret_negative_is_errno() {
    match check_ret(-13) {
        Err(Error::Os(e)) => assert_eq!(e.raw_os_error(), Some(13)),
        _ => panic!("expected an OS error"),
    }
}

#[test]
fn ret_positive_is_nvme_status() {
    assert!(matches!(check_ret(0x4002), Err(Error::Nvme(0x4002))));
    assert!(matches!(check_ret(1), Err(Error::Nvme(1))));
}

#[test]
fn controller_list_pads_with_zeros() {
    let list = controller_list(&[3, 9]).unwrap();
    assert_eq!(list.num, 2);
    assert_eq!(list.identifier.len(), 2047);
    assert_eq!(&list.identifier[..3], &[3, 9, 0]);
    assert!(list.identifier[2..].iter().all(|&x| x == 0));
}

#[test]
fn controller_list_empty_is_accepted() {
    let list = controller_list(&[]).unwrap();
    assert_eq!(list.num, 0);
    assert!(list.identifier.iter().all(|&x| x == 0));
}

#[test]
fn controller_list_full_and_too_long() {
    let full = vec![1u16; 2047];
    let list = controller_list(&full).unwrap();
    assert_eq!(list.num, 2047);
    assert!(list.identifier.iter().all(|&x| x == 1));
    let too_long = vec![1u16; 2048];
    assert!(matches!(controller_list(&too_long), Err(Error::NotAvailable)));
}

#[test]
fn c_string_without_nul_is_ok() {
    assert!(check_c_string("DHHC-1:00:abc:", "interior NUL byte in DH-HMAC-CHAP key").is_ok());
    assert!(check_c_string("", "msg").is_ok());
}

#[test]
fn c_string_with_nul_is_invalid_input() {
    match check_c_string("ab\0cd", "interior NUL byte in TLS key") {
        Err(Error::Os(e)) => {
            assert_eq!(e.kind(), std::io::ErrorKind::InvalidInput);
            assert_eq!(e.to_string(), "interior NUL byte in TLS key");
        }
        _ => panic!("expected InvalidInput"),
    }
}

#[test]
fn host_names_are_checked_in_order() {
    assert!(check_host_names("nqn.host", None).is_ok());
    assert!(check_host_names("nqn.host", Some("id")).is_ok());
    match check_host_names("nqn\0", Some("id\0")) {
        Err(Error::Os(e)) => assert_eq!(e.to_string(), "interior NUL byte in hostnqn"),
        _ => panic!("expected hostnqn error"),
    }
    match check_host_names("nqn", Some("id\0")) {
        Err(Error::Os(e)) => assert_eq!(e.to_string(), "interior NUL byte in hostid"),
        _ => panic!("expected hostid error"),
    }
}

#[test]
fn host_id_lengths() {
    assert!(check_host_id_len(false, 8).is_ok());
    assert!(check_host_id_len(true, 16).is_ok());
    match check_host_id_len(false, 16) {
        Err(Error::Os(e)) => assert_eq!(e.kind(), std::io::ErrorKind::InvalidInput),
        _ => panic!("expected InvalidInput"),
    }
    assert!(check_host_id_len(true, 8).is_err());
    assert!(check_host_id_len(true, 0).is_err());
}

#[test]
fn size_bytes_multiplies_and_saturates() {
    assert_eq!(size_bytes(2_097_152, 512), 1_073_741_824);
    assert_eq!(size_bytes(0, 4096), 0);
    assert_eq!(size_bytes(u64::MAX, 2), u64::MAX);
    assert_eq!(size_bytes(u64::MAX, 1), u64::MAX);
}

#[test]
fn error_log_lengths() {
    assert!(error_log_len(64, 0).is_none());
    assert_eq!(error_log_len(64, 4).unwrap().unwrap(), 256);
    assert_eq!(error_log_len(64, 1 << 26).unwrap().unwrap(), 0);
    assert!(matches!(error_log_len(usize::MAX, 2), Some(Err(Error::NotAvailable))));
}

#[test]
fn identifiers_default_to_zero() {
    let id = [1u8; 16];
    assert_eq!(nguid_or_zero(Some(&id)), id);
    assert_eq!(nguid_or_zero(None), [0u8; 16]);
    let eui = [7u8; 8];
    assert_eq!(eui64_or_zero(Some(&eui)), eui);
    assert_eq!(eui64_or_zero(None), [0u8; 8]);
}

#[test]
fn ret_min_keeps_its_code() {
    match check_ret(i32::MIN) {
        Err(Error::Os(e)) => assert_eq!(e.raw_os_error(), Some(i32::MIN)),
        _ => panic!("expected an OS error"),
    }
}

#[test]
fn controller_list_accepts_every_short_list() {
    for n in [0usize, 1, 2, 1000, 2046, 2047] {
        let ids: Vec<u16> = (0..n).map(|i| i as u16 + 1).collect();
        let list = controller_list(&ids).unwrap();
        assert_eq!(list.num as usize, n);
        assert_eq!(&list.identifier[..n], &ids[..]);
    }
}

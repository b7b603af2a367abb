use lib::{Error, ErrorLogEntry, FirmwareSlotLog, SmartLog};

fn smart() -> SmartLog {
    SmartLog {
        critical_warning: 0x05,
        temperature: [0x3c, 0x01],
        avail_spare: 100,
        spare_thresh: 10,
        percent_used: 3,
        endu_grp_crit_warn_sumry: 0,
        data_units_read: [0x01, 0x02, 0, 0, 0, 0, 0, 0, 0, 0, 0, 0, 0, 0, 0, 0],
        data_units_written: [0; 16],
        host_reads: [0xFF; 16],
        host_writes: [0, 0, 0, 0, 0, 0, 0, 0, 0, 0, 0, 0, 0, 0, 0, 0x80],
        ctrl_busy_time: [7, 0, 0, 0, 0, 0, 0, 0, 0, 0, 0, 0, 0, 0, 0, 0],
        power_cycles: [0x10, 0x27, 0, 0, 0, 0, 0, 0, 0, 0, 0, 0, 0, 0, 0, 0],
        power_on_hours: [0x39, 0x30, 0, 0, 0, 0, 0, 0, 0, 0, 0, 0, 0, 0, 0, 0],
        unsafe_shutdowns: [2, 0, 0, 0, 0, 0, 0, 0, 0, 0, 0, 0, 0, 0, 0, 0],
        media_errors: [0, 0, 0, 0, 0, 0, 0, 0, 1, 0, 0, 0, 0, 0, 0, 0],
        num_err_log_entries: [0x2a, 0, 0, 0, 0, 0, 0, 0, 0, 0, 0, 0, 0, 0, 0, 0],
        warning_temp_time: 11,
        critical_comp_time: 12,
        temp_sensor: [310, 0, 305, 0, 0, 0, 0, 299],
    }
}

#[test]
fn smart_temperature_is_little_endian_kelvin() {
    let log = smart();
    assert_eq!(log.temperature_kelvin(), 316);
    assert_eq!(log.temperature_celsius(), 43);
}

#[test]
fn smart_celsius_below_freezing() {
    let mut log = smart();
    log.temperature = [0x00, 0x01];
    assert_eq!(log.temperature_kelvin(), 256);
    assert_eq!(log.temperature_celsius(), -17);
}

#[test]
fn smart_celsius_wraps_like_the_cast() {
    let mut log = smart();
    log.temperature = [0xFF, 0xFF];
    assert_eq!(log.temperature_kelvin(), 65535);
    assert_eq!(log.temperature_celsius(), (65535i32 - 273) as i16);
}

#[test]
fn smart_counters_decode_little_endian() {
    let log = smart();
    assert_eq!(log.data_units_read(), 0x0201);
    assert_eq!(log.data_units_written(), 0);
    assert_eq!(log.host_read_commands(), u128::MAX);
    assert_eq!(log.host_write_commands(), 1u128 << 127);
    assert_eq!(log.controller_busy_time_minutes(), 7);
    assert_eq!(log.power_cycles(), 10000);
    assert_eq!(log.power_on_hours(), 12345);
    assert_eq!(log.unsafe_shutdowns(), 2);
    assert_eq!(log.media_errors(), 1u128 << 64);
    assert_eq!(log.num_error_log_entries(), 42);
}

#[test]
fn smart_plain_fields() {
    let log = smart();
    assert_eq!(log.critical_warning(), 0x05);
    assert_eq!(log.available_spare(), 100);
    assert_eq!(log.available_spare_threshold(), 10);
    assert_eq!(log.percentage_used(), 3);
    assert_eq!(log.endurance_group_critical_warning(), 0);
    assert_eq!(log.warning_temp_time_minutes(), 11);
    assert_eq!(log.critical_temp_time_minutes(), 12);
}

#[test]
fn smart_temperature_sensors() {
    let log = smart();
    assert_eq!(log.temperature_sensor_kelvin(0), None);
    assert_eq!(log.temperature_sensor_kelvin(1), Some(310));
    assert_eq!(log.temperature_sensor_kelvin(2), None);
    assert_eq!(log.temperature_sensor_kelvin(3), Some(305));
    assert_eq!(log.temperature_sensor_kelvin(8), Some(299));
    assert_eq!(log.temperature_sensor_kelvin(9), None);
    assert_eq!(log.temperature_sensor_kelvin(255), None);
}

fn fw_log(afi: u8) -> FirmwareSlotLog {
    let mut frs = [[0u8; 8]; 7];
    frs[0] = *b"1.0.0   ";
    frs[1] = *b"2.1\0\0\0\0\0";
    frs[3] = [b'x', 0xFF, 0, 0, 0, 0, 0, 0];
    FirmwareSlotLog { afi, frs }
}

#[test]
fn fw_active_and_next_slot() {
    let log = fw_log(0x21);
    assert_eq!(log.afi(), 0x21);
    assert_eq!(log.active_slot(), 1);
    assert_eq!(log.next_slot_to_activate(), Some(2));
}

#[test]
fn fw_no_next_slot() {
    let log = fw_log(0x03);
    assert_eq!(log.active_slot(), 3);
    assert_eq!(log.next_slot_to_activate(), None);
}

#[test]
fn fw_reserved_bits_are_ignored() {
    let log = fw_log(0xFF);
    assert_eq!(log.active_slot(), 7);
    assert_eq!(log.next_slot_to_activate(), Some(7));
}

#[test]
fn fw_slot_strings() {
    let log = fw_log(0x01);
    assert_eq!(log.slot_firmware(1).unwrap(), "1.0.0");
    assert_eq!(log.slot_firmware(2).unwrap(), "2.1");
    assert_eq!(log.slot_firmware(3).unwrap(), "");
    assert!(matches!(log.slot_firmware(4), Err(Error::Utf8(_))));
    assert!(matches!(log.slot_firmware(0), Err(Error::NotAvailable)));
    assert!(matches!(log.slot_firmware(8), Err(Error::NotAvailable)));
}

#[test]
fn error_log_entry_getters() {
    let e = ErrorLogEntry {
        error_count: 9,
        sqid: 1,
        cmdid: 0x12,
        status_field: 0x4004,
        parm_error_location: 0x28,
        lba: 0xdead_beef,
        nsid: 1,
        vs: 2,
        trtype: 3,
        csi: 0,
        opcode: 0x06,
    };
    assert_eq!(e.error_count(), 9);
    assert_eq!(e.submission_queue_id(), 1);
    assert_eq!(e.command_id(), 0x12);
    assert_eq!(e.status_field(), 0x4004);
    assert_eq!(e.parameter_error_location(), 0x28);
    assert_eq!(e.lba(), 0xdead_beef);
    assert_eq!(e.nsid(), 1);
    assert_eq!(e.vendor_specific(), 2);
    assert_eq!(e.transport_type(), 3);
    assert_eq!(e.csi(), 0);
    assert_eq!(e.opcode(), 0x06);
}

#[test]
fn smart_debug_string_lists_decoded_fields() {
    let log = smart();
    assert_eq!(
        log.to_debug_string(),
        "SmartLog { critical_warning: 5, temperature_celsius: 43, percentage_used: 3, \
         power_cycles: 10000, power_on_hours: 12345, unsafe_shutdowns: 2 }"
    );
}

#[test]
fn smart_debug_string_negative_celsius_and_wide_counter() {
    let mut log = smart();
    log.temperature = [0x00, 0x01];
    log.power_cycles = [0xFF; 16];
    log.unsafe_shutdowns = [0; 16];
    assert_eq!(
        log.to_debug_string(),
        "SmartLog { critical_warning: 5, temperature_celsius: -17, percentage_used: 3, \
         power_cycles: 340282366920938463463374607431768211455, power_on_hours: 12345, \
         unsafe_shutdowns: 0 }"
    );
}

#[test]
fn fw_debug_string_with_next_slot() {
    let log = fw_log(0x21);
    assert_eq!(
        log.to_debug_string(),
        "FirmwareSlotLog { active_slot: 1, next_slot_to_activate: Some(2), \
         slot_1: Some(\"1.0.0\"), slot_2: Some(\"2.1\"), slot_3: Some(\"\") }"
    );
}

#[test]
fn fw_debug_string_without_next_slot() {
    let log = fw_log(0x03);
    assert_eq!(
        log.to_debug_string(),
        "FirmwareSlotLog { active_slot: 3, next_slot_to_activate: None, \
         slot_1: Some(\"1.0.0\"), slot_2: Some(\"2.1\"), slot_3: Some(\"\") }"
    );
}

#[test]
fn fw_debug_string_escapes_and_skips_invalid_utf8() {
    let mut log = fw_log(0x07);
    log.frs[0] = *b"a\"b\\c   ";
    log.frs[2] = [0xC3, 0, 0, 0, 0, 0, 0, 0];
    assert_eq!(
        log.to_debug_string(),
        "FirmwareSlotLog { active_slot: 7, next_slot_to_activate: None, \
         slot_1: Some(\"a\\\"b\\\\c\"), slot_2: Some(\"2.1\"), slot_3: None }"
    );
}

#[test]
fn error_log_entry_debug_string_pads_hex() {
    let mut e = ErrorLogEntry {
        error_count: 9,
        sqid: 1,
        cmdid: 0x12,
        status_field: 0x4004,
        parm_error_location: 0x28,
        lba: 0xdead_beef,
        nsid: 1,
        vs: 2,
        trtype: 3,
        csi: 0,
        opcode: 0x06,
    };
    assert_eq!(
        e.to_debug_string(),
        "ErrorLogEntry { error_count: 9, status_field: 0x4004, opcode: 0x06, nsid: 1, \
         lba: 3735928559 }"
    );
    e.status_field = 0x1a;
    e.opcode = 0xc1;
    e.error_count = 0;
    e.nsid = u32::MAX;
    e.lba = u64::MAX;
    assert_eq!(
        e.to_debug_string(),
        "ErrorLogEntry { error_count: 0, status_field: 0x001a, opcode: 0xc1, \
         nsid: 4294967295, lba: 18446744073709551615 }"
    );
}

use openscq30_lib::connection_backend::macos::rfcomm::{
    device_address_string, mac_address_of, write_step, WriteStep, IO_RETURN_NOT_OPEN,
};
use openscq30_lib::logging::{log_level_filter, LogLevel};

#[test]
fn device_address_strings_use_dashes() {
    assert_eq!(device_address_string([0xab, 0x0d, 0xef, 0x12, 0x34, 0x56]), "AB-0D-EF-12-34-56");
}

#[test]
fn reported_addresses_parse() {
    assert_eq!(mac_address_of("ab-0d-ef-12-34-56"), Some([0xab, 0x0d, 0xef, 0x12, 0x34, 0x56]));
    assert_eq!(mac_address_of("AB:0D:EF:12:34:56"), Some([0xab, 0x0d, 0xef, 0x12, 0x34, 0x56]));
    assert_eq!(mac_address_of("not an address"), None);
    assert_eq!(mac_address_of("ab-0d-ef-12-34"), None);
}

#[test]
fn device_address_round_trip() {
    let address = [0x00, 0x1b, 0x66, 0xc0, 0xff, 0x01];
    assert_eq!(mac_address_of(&device_address_string(address)), Some(address));
}

#[test]
fn writes_retry_only_while_not_open() {
    assert_eq!(write_step(IO_RETURN_NOT_OPEN, 1), WriteStep::Retry);
    assert_eq!(write_step(IO_RETURN_NOT_OPEN, 49), WriteStep::Retry);
    assert_eq!(write_step(IO_RETURN_NOT_OPEN, 50), WriteStep::Failed(IO_RETURN_NOT_OPEN));
    assert_eq!(write_step(0, 1), WriteStep::Written);
    assert_eq!(write_step(-1, 1), WriteStep::Failed(-1));
    assert_eq!(IO_RETURN_NOT_OPEN, 0xE00002CDu32 as i32);
}

#[test]
fn verbosity_levels() {
    assert_eq!(log_level_filter(0), None);
    assert_eq!(log_level_filter(1), Some(LogLevel::Warn));
    assert_eq!(log_level_filter(2), Some(LogLevel::Info));
    assert_eq!(log_level_filter(3), Some(LogLevel::Debug));
    assert_eq!(log_level_filter(4), Some(LogLevel::Trace));
    assert_eq!(log_level_filter(200), Some(LogLevel::Trace));
}

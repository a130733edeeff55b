use dddw::identifier::{
    extract_harddiskvolume_digits, extract_physical_drive_digits, extract_suffix_digits, parse,
    DeviceReference, ReferenceError,
};

#[test]
fn parse_physical_simple() {
    assert_eq!(parse("physicaldrive0"), Ok(DeviceReference::PhysicalDisk(0)));
}

#[test]
fn parse_physical_case_insensitive() {
    assert_eq!(parse("PhysicalDrive3"), Ok(DeviceReference::PhysicalDisk(3)));
    assert_eq!(
        parse("\\\\.\\PHYSICALDRIVE12"),
        Ok(DeviceReference::PhysicalDisk(12))
    );
}

#[test]
fn parse_physical_last_occurrence() {
    assert_eq!(
        parse("physicaldrivephysicaldrive5"),
        Ok(DeviceReference::PhysicalDisk(5))
    );
}

#[test]
fn parse_physical_rejects_nondigit_suffix() {
    assert_eq!(parse("physicaldrive0x"), Err(ReferenceError::InvalidReference));
    assert_eq!(
        parse("physicaldrive1harddiskvolume2"),
        Err(ReferenceError::InvalidReference)
    );
}

#[test]
fn parse_physical_empty_suffix_is_parse_error() {
    assert_eq!(parse("physicaldrive"), Err(ReferenceError::IndexParse));
}

#[test]
fn parse_physical_overflow_is_parse_error() {
    assert_eq!(parse("physicaldrive256"), Err(ReferenceError::IndexParse));
    assert_eq!(parse("physicaldrive999999"), Err(ReferenceError::IndexParse));
}

#[test]
fn parse_volume_simple() {
    assert_eq!(parse("harddiskvolume1"), Ok(DeviceReference::Volume(1)));
    assert_eq!(
        parse("\\\\.\\HarddiskVolume7"),
        Ok(DeviceReference::Volume(7))
    );
}

#[test]
fn parse_volume_rejects_nondigit_suffix() {
    assert_eq!(parse("harddiskvolume2x"), Err(ReferenceError::InvalidReference));
}

#[test]
fn parse_neither_prefix() {
    assert_eq!(parse("floppy1"), Err(ReferenceError::InvalidReference));
    assert_eq!(parse(""), Err(ReferenceError::InvalidReference));
    assert_eq!(parse("disk0"), Err(ReferenceError::InvalidReference));
}

#[test]
fn suffix_digits_accepts_plain_numbers() {
    assert_eq!(extract_suffix_digits("42"), Ok(42));
    assert_eq!(extract_suffix_digits("0"), Ok(0));
    assert_eq!(extract_suffix_digits("255"), Ok(255));
    assert_eq!(extract_suffix_digits("007"), Ok(7));
}

#[test]
fn suffix_digits_rejects_bad_input() {
    assert_eq!(extract_suffix_digits(""), Err(ReferenceError::IndexParse));
    assert_eq!(extract_suffix_digits("256"), Err(ReferenceError::IndexParse));
    assert_eq!(extract_suffix_digits("4a"), Err(ReferenceError::InvalidReference));
    assert_eq!(extract_suffix_digits("-1"), Err(ReferenceError::InvalidReference));
}

#[test]
fn extract_physical_digits_direct() {
    assert_eq!(extract_physical_drive_digits("\\\\.\\PhysicalDrive9"), Ok(9));
    assert_eq!(
        extract_physical_drive_digits("harddiskvolume9"),
        Err(ReferenceError::InvalidReference)
    );
}

#[test]
fn extract_volume_digits_direct() {
    assert_eq!(extract_harddiskvolume_digits("\\\\.\\HarddiskVolume10"), Ok(10));
    assert_eq!(
        extract_harddiskvolume_digits("physicaldrive10"),
        Err(ReferenceError::InvalidReference)
    );
}

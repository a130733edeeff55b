use dddw::identifier::ReferenceError;
use dddw::opener::{
    open_harddisk_volume, open_physical_disk, open_physical_drive, DeviceClass, OpenError,
};
use dddw::sim::{SimDevices, SimStream, NO_SUCH_DEVICE};

fn devices(physical: Vec<Result<u64, i32>>, volume: Vec<Result<u64, i32>>) -> SimDevices {
    SimDevices { physical, volume }
}

#[test]
fn open_physical_success() {
    let d = devices(vec![Ok(512)], vec![]);
    let (stream, size) = open_physical_drive(&d, "physicaldrive0").unwrap();
    assert_eq!(size, 512);
    assert_eq!(
        stream,
        SimStream { class: DeviceClass::PhysicalDisk, index: 0 }
    );
}

#[test]
fn open_falls_back_to_volume() {
    let d = devices(vec![], vec![Err(NO_SUCH_DEVICE), Ok(4096)]);
    let (stream, size) = open_physical_drive(&d, "harddiskvolume1").unwrap();
    assert_eq!(size, 4096);
    assert_eq!(stream, SimStream { class: DeviceClass::Volume, index: 1 });
}

#[test]
fn open_fallback_when_physical_parse_fails_but_volume_opens() {
    let d = devices(vec![Err(5), Err(5), Err(5)], vec![Ok(0), Ok(0), Ok(1234)]);
    let (stream, size) = open_physical_drive(&d, "physicaldrive2harddiskvolume2").unwrap();
    assert_eq!(size, 1234);
    assert_eq!(stream, SimStream { class: DeviceClass::Volume, index: 2 });
}

#[test]
fn open_surfaces_the_volume_stage_error() {
    let d = devices(vec![Err(5)], vec![]);
    assert_eq!(
        open_physical_drive(&d, "physicaldrive0"),
        Err(OpenError::Reference(ReferenceError::InvalidReference))
    );
}

#[test]
fn open_volume_device_error() {
    let d = devices(vec![], vec![Ok(1), Ok(1), Ok(1), Err(13)]);
    assert_eq!(
        open_physical_drive(&d, "harddiskvolume3"),
        Err(OpenError::Device(13))
    );
}

#[test]
fn open_unparseable_reference() {
    let d = devices(vec![Ok(1)], vec![Ok(1)]);
    assert_eq!(
        open_physical_drive(&d, "floppy0"),
        Err(OpenError::Reference(ReferenceError::InvalidReference))
    );
}

#[test]
fn open_physical_disk_stage_alone() {
    let d = devices(vec![Ok(100), Err(5)], vec![]);
    assert_eq!(
        open_physical_disk(&d, "physicaldrive0").unwrap().1,
        100
    );
    assert_eq!(
        open_physical_disk(&d, "physicaldrive1"),
        Err(OpenError::Device(5))
    );
    assert_eq!(
        open_physical_disk(&d, "physicaldrive9"),
        Err(OpenError::Device(NO_SUCH_DEVICE))
    );
}

#[test]
fn open_volume_stage_alone() {
    let d = devices(vec![], vec![Ok(200)]);
    assert_eq!(open_harddisk_volume(&d, "harddiskvolume0").unwrap().1, 200);
    assert_eq!(
        open_harddisk_volume(&d, "harddiskvolume"),
        Err(OpenError::Reference(ReferenceError::IndexParse))
    );
}

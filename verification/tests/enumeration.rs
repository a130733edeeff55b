use dddw::enumerate::{geometry_capacity, list_devices, DriveGeometry, EnumerationError};
use dddw::sim::{SimNamespace, SimVolume};

fn volume(
    path: &str,
    device_number: Option<u32>,
    geometry: Option<DriveGeometry>,
    mounts: Vec<&str>,
) -> SimVolume {
    SimVolume {
        path: String::from(path),
        device_number,
        geometry,
        mount_points: mounts.into_iter().map(String::from).collect(),
    }
}

fn small_geometry() -> DriveGeometry {
    DriveGeometry { cylinders: 2, tracks_per_cylinder: 3, sectors_per_track: 5, bytes_per_sector: 7 }
}

#[test]
fn capacity_is_the_product_of_the_factors() {
    assert_eq!(geometry_capacity(small_geometry()), Some(210));
    let disk = DriveGeometry {
        cylinders: 1024,
        tracks_per_cylinder: 255,
        sectors_per_track: 63,
        bytes_per_sector: 512,
    };
    assert_eq!(geometry_capacity(disk), Some(8_422_686_720));
}

#[test]
fn capacity_overflow_is_absent() {
    let too_big = DriveGeometry {
        cylinders: u64::MAX,
        tracks_per_cylinder: 2,
        sectors_per_track: 1,
        bytes_per_sector: 1,
    };
    assert_eq!(geometry_capacity(too_big), None);
}

#[test]
fn capacity_with_a_zero_factor() {
    let flat = DriveGeometry {
        cylinders: u64::MAX,
        tracks_per_cylinder: u32::MAX,
        sectors_per_track: u32::MAX,
        bytes_per_sector: 0,
    };
    assert_eq!(geometry_capacity(flat), Some(0));
}

#[test]
fn enumeration_lists_every_volume() {
    let ns = SimNamespace {
        volumes: vec![
            volume("\\\\?\\Volume{a}\\", Some(0), Some(small_geometry()), vec!["C:\\"]),
            volume("\\\\?\\Volume{b}\\", Some(1), Some(small_geometry()), vec![]),
        ],
        walk_failure: None,
    };
    let infos = list_devices(&ns).unwrap();
    assert_eq!(infos.len(), 2);
    assert_eq!(infos[0].path, "\\\\?\\Volume{a}\\");
    assert_eq!(infos[0].device_number, Some(0));
    assert_eq!(infos[0].size, Some(210));
    assert_eq!(infos[0].mount_points, vec![String::from("C:\\")]);
    assert_eq!(infos[1].device_number, Some(1));
    assert!(infos[1].mount_points.is_empty());
}

#[test]
fn enumeration_tolerates_a_failing_geometry_query() {
    let ns = SimNamespace {
        volumes: vec![
            volume("\\\\?\\Volume{a}\\", Some(0), Some(small_geometry()), vec![]),
            volume("\\\\?\\Volume{b}\\", Some(1), None, vec![]),
            volume("\\\\?\\Volume{c}\\", Some(2), Some(small_geometry()), vec![]),
        ],
        walk_failure: None,
    };
    let infos = list_devices(&ns).unwrap();
    assert_eq!(infos.len(), 3);
    assert_eq!(infos[0].size, Some(210));
    assert_eq!(infos[1].size, None);
    assert_eq!(infos[1].path, "\\\\?\\Volume{b}\\");
    assert_eq!(infos[2].size, Some(210));
}

#[test]
fn enumeration_tolerates_a_failing_number_query() {
    let ns = SimNamespace {
        volumes: vec![volume("\\\\?\\Volume{a}\\", None, Some(small_geometry()), vec![])],
        walk_failure: None,
    };
    let infos = list_devices(&ns).unwrap();
    assert_eq!(infos[0].device_number, None);
    assert_eq!(infos[0].size, Some(210));
}

#[test]
fn enumeration_fails_only_when_the_walk_fails() {
    let ns = SimNamespace {
        volumes: vec![volume("\\\\?\\Volume{a}\\", Some(0), Some(small_geometry()), vec![])],
        walk_failure: Some(31),
    };
    match list_devices(&ns) {
        Err(e) => assert_eq!(e, EnumerationError { code: 31 }),
        Ok(_) => panic!("enumeration should fail when the walk fails"),
    }
}

//! Enumeration of the volumes the OS exposes.
//!
//! Each volume is reported with its storage device number, the byte size
//! its geometry describes, and its mount points.  A volume whose number or
//! geometry query fails is still listed, with that field absent: partial
//! information beats a total failure.  Only a failure of the volume walk
//! itself aborts the enumeration.

use vstd::prelude::*;

verus! {

/// One volume's geometry as the OS reports it.
#[derive(Clone, Copy, PartialEq, Eq, Structural, Debug)]
pub struct DriveGeometry {
    pub cylinders: u64,
    pub tracks_per_cylinder: u32,
    pub sectors_per_track: u32,
    pub bytes_per_sector: u32,
}

/// The byte capacity a geometry describes, when it fits 64 bits.
pub open spec fn capacity_spec(g: DriveGeometry) -> Option<u64> {
    let product = g.cylinders * g.tracks_per_cylinder * g.sectors_per_track * g.bytes_per_sector;
    if product <= u64::MAX {
        Some(product as u64)
    } else {
        None
    }
}

/// Multiplies the four geometry factors, reporting `None` when the product
/// does not fit 64 bits.
pub fn geometry_capacity(g: DriveGeometry) -> (r: Option<u64>)
    ensures
        r == capacity_spec(g),
{
    let a: u128 = g.cylinders as u128;
    let b: u128 = g.tracks_per_cylinder as u128;
    let c: u128 = g.sectors_per_track as u128;
    let d: u128 = g.bytes_per_sector as u128;
    assert(a * b <= 0xFFFF_FFFF_FFFF_FFFF * 0xFFFF_FFFFu128) by (nonlinear_arith)
        requires
            a <= 0xFFFF_FFFF_FFFF_FFFF && b <= 0xFFFF_FFFF,
    ;
    let ab: u128 = a * b;
    assert(ab * c <= 0xFFFF_FFFF_FFFF_FFFF * 0xFFFF_FFFFu128 * 0xFFFF_FFFF) by (nonlinear_arith)
        requires
            ab <= 0xFFFF_FFFF_FFFF_FFFF * 0xFFFF_FFFFu128 && c <= 0xFFFF_FFFF,
    ;
    let abc: u128 = ab * c;
    proof {
        assert(a * b * c * d == g.cylinders * g.tracks_per_cylinder * g.sectors_per_track
            * g.bytes_per_sector);
    }
    if abc > 0xFFFF_FFFF_FFFF_FFFF {
        proof {
            if d == 0 {
                assert(abc * d == 0) by (nonlinear_arith)
                    requires
                        d == 0,
                ;
            }
        }
        if d == 0 {
            Some(0)
        } else {
            assert(abc * d > 0xFFFF_FFFF_FFFF_FFFFu128) by (nonlinear_arith)
                requires
                    abc > 0xFFFF_FFFF_FFFF_FFFFu128 && d >= 1,
            ;
            None
        }
    } else {
        assert(abc * d <= 0xFFFF_FFFF_FFFF_FFFFu128 * 0xFFFF_FFFF) by (nonlinear_arith)
            requires
                abc <= 0xFFFF_FFFF_FFFF_FFFFu128 && d <= 0xFFFF_FFFF,
        ;
        let product: u128 = abc * d;
        if product <= 0xFFFF_FFFF_FFFF_FFFF {
            Some(product as u64)
        } else {
            None
        }
    }
}

/// The record enumeration yields for one volume.
pub struct DeviceInfo {
    /// The volume's path in the OS device namespace.
    pub path: String,
    /// The storage device number, absent when its query failed.
    pub device_number: Option<u32>,
    /// The byte size from the geometry query, absent when the query failed
    /// or its product overflows.
    pub size: Option<u64>,
    /// The filesystem paths the volume is mounted at.
    pub mount_points: Vec<String>,
}

/// Enumeration failed as a whole: the volume walk itself broke off, with
/// this OS error code.
#[derive(Clone, Copy, PartialEq, Eq, Structural, Debug)]
pub struct EnumerationError {
    pub code: i32,
}

/// The OS volume namespace.
///
/// An implementation is modeled by what its volume walk yields — the paths
/// in enumeration order, or the code the walk fails with — and by what each
/// per-volume query answers; a query that fails answers `None`.
pub trait VolumeNamespace {
    /// The paths the volume walk produces, or the code it fails with.
    spec fn walk_outcome(&self) -> Result<Seq<Seq<char>>, i32>;

    /// What the device-number query answers for volume `i`.
    spec fn device_number_of(&self, i: int) -> Option<u32>;

    /// What the geometry query answers for volume `i`.
    spec fn geometry_of(&self, i: int) -> Option<DriveGeometry>;

    /// The mount points of volume `i`.
    spec fn mounts_of(&self, i: int) -> Seq<Seq<char>>;

    /// Walks the namespace, yielding every volume path in enumeration
    /// order.
    fn walk(&self) -> (r: Result<Vec<String>, i32>)
        ensures
            match r {
                Ok(paths) => self.walk_outcome() == Ok::<Seq<Seq<char>>, i32>(
                    paths@.map_values(|p: String| p@),
                ),
                Err(code) => self.walk_outcome() == Err::<Seq<Seq<char>>, i32>(code),
            },
    ;

    /// Queries volume `i` for its storage device number.
    fn device_number(&self, i: usize) -> (r: Option<u32>)
        requires
            self.walk_outcome() is Ok,
            i < self.walk_outcome()->Ok_0.len(),
        ensures
            r == self.device_number_of(i as int),
    ;

    /// Queries volume `i` for its geometry.
    fn geometry(&self, i: usize) -> (r: Option<DriveGeometry>)
        requires
            self.walk_outcome() is Ok,
            i < self.walk_outcome()->Ok_0.len(),
        ensures
            r == self.geometry_of(i as int),
    ;

    /// Queries volume `i` for its mount points.
    fn mounts(&self, i: usize) -> (r: Vec<String>)
        requires
            self.walk_outcome() is Ok,
            i < self.walk_outcome()->Ok_0.len(),
        ensures
            r@.map_values(|p: String| p@) == self.mounts_of(i as int),
    ;
}

/// The record volume `i` of the namespace must be reported as: its path,
/// the query answers, and the size its geometry describes — absent fields
/// exactly where the queries failed.
pub open spec fn record_matches<Q: VolumeNamespace>(
    namespace: &Q,
    info: DeviceInfo,
    i: int,
    path: Seq<char>,
) -> bool {
    &&& info.path@ == path
    &&& info.device_number == namespace.device_number_of(i)
    &&& info.size == match namespace.geometry_of(i) {
        Some(g) => capacity_spec(g),
        None => None::<u64>,
    }
    &&& info.mount_points@.map_values(|p: String| p@) == namespace.mounts_of(i)
}

/// Enumerates every volume of the namespace.
///
/// The result fails only when the volume walk itself fails; a volume whose
/// own queries fail is still listed, with the failed fields absent.
pub fn list_devices<Q: VolumeNamespace>(namespace: &Q) -> (r: Result<
    Vec<DeviceInfo>,
    EnumerationError,
>)
    ensures
        match r {
            Ok(infos) => {
                &&& namespace.walk_outcome() is Ok
                &&& infos@.len() == namespace.walk_outcome()->Ok_0.len()
                &&& forall|i: int|
                    0 <= i < infos@.len() ==> record_matches(
                        namespace,
                        #[trigger] infos@[i],
                        i,
                        namespace.walk_outcome()->Ok_0[i],
                    )
            },
            Err(e) => namespace.walk_outcome() == Err::<Seq<Seq<char>>, i32>(e.code),
        },
{
    let paths = match namespace.walk() {
        Ok(paths) => paths,
        Err(code) => {
            return Err(EnumerationError { code });
        },
    };
    let ghost path_views = paths@.map_values(|p: String| p@);
    let mut infos: Vec<DeviceInfo> = Vec::new();
    let mut i: usize = 0;
    while i < paths.len()
        invariant
            namespace.walk_outcome() == Ok::<Seq<Seq<char>>, i32>(path_views),
            path_views == paths@.map_values(|p: String| p@),
            i <= paths@.len(),
            infos@.len() == i,
            forall|k: int|
                0 <= k < i ==> record_matches(namespace, #[trigger] infos@[k], k, path_views[k]),
        decreases paths@.len() - i,
    {
        let path = clone_string(&paths[i]);
        let device_number = namespace.device_number(i);
        let size = match namespace.geometry(i) {
            Some(g) => geometry_capacity(g),
            None => None,
        };
        let mount_points = namespace.mounts(i);
        let info = DeviceInfo { path, device_number, size, mount_points };
        infos.push(info);
        i = i + 1;
    }
    Ok(infos)
}

/// A copy of a string with the same characters.
pub(crate) fn clone_string(s: &String) -> (r: String)
    ensures
        r@ == s@,
{
    String::from_str(s.as_str())
}

} // verus!

//! Scripted devices and volume namespaces.
//!
//! These implement the opener's and the enumerator's OS interfaces from
//! plain tables, so resolution and enumeration can be exercised without
//! raw device access: each index or volume answers exactly what the table
//! says.

use vstd::prelude::*;
use crate::enumerate::{clone_string, DriveGeometry, VolumeNamespace};
use crate::opener::{BlockDevices, DeviceClass};

verus! {

/// The OS error code a scripted open fails with when the index is beyond
/// the table.
pub const NO_SUCH_DEVICE: i32 = 2;

/// The stream a scripted open hands out: a tag recording which device was
/// opened.
#[derive(Clone, Copy, PartialEq, Eq, Structural, Debug)]
pub struct SimStream {
    pub class: DeviceClass,
    pub index: u8,
}

/// A scripted device table: entry `i` of each class is the size opening
/// that index yields, or the OS error code the open fails with; an index
/// beyond the table fails with [`NO_SUCH_DEVICE`].
pub struct SimDevices {
    pub physical: Vec<Result<u64, i32>>,
    pub volume: Vec<Result<u64, i32>>,
}

impl BlockDevices for SimDevices {
    type Stream = SimStream;

    open spec fn physical_outcome(&self, index: u8) -> Result<u64, i32> {
        if (index as int) < self.physical@.len() {
            self.physical@[index as int]
        } else {
            Err(NO_SUCH_DEVICE)
        }
    }

    open spec fn volume_outcome(&self, index: u8) -> Result<u64, i32> {
        if (index as int) < self.volume@.len() {
            self.volume@[index as int]
        } else {
            Err(NO_SUCH_DEVICE)
        }
    }

    fn open_physical(&self, index: u8) -> (r: Result<(SimStream, u64), i32>) {
        if (index as usize) < self.physical.len() {
            let entry = self.physical[index as usize];
            match entry {
                Ok(size) => Ok((SimStream { class: DeviceClass::PhysicalDisk, index }, size)),
                Err(code) => Err(code),
            }
        } else {
            Err(NO_SUCH_DEVICE)
        }
    }

    fn open_volume(&self, index: u8) -> (r: Result<(SimStream, u64), i32>) {
        if (index as usize) < self.volume.len() {
            let entry = self.volume[index as usize];
            match entry {
                Ok(size) => Ok((SimStream { class: DeviceClass::Volume, index }, size)),
                Err(code) => Err(code),
            }
        } else {
            Err(NO_SUCH_DEVICE)
        }
    }
}

/// One scripted volume: its path, what its queries answer, and its mount
/// points.
pub struct SimVolume {
    pub path: String,
    pub device_number: Option<u32>,
    pub geometry: Option<DriveGeometry>,
    pub mount_points: Vec<String>,
}

/// A scripted volume namespace: a walk yields the volumes in table order,
/// or fails outright with `walk_failure`.
pub struct SimNamespace {
    pub volumes: Vec<SimVolume>,
    pub walk_failure: Option<i32>,
}

impl VolumeNamespace for SimNamespace {
    open spec fn walk_outcome(&self) -> Result<Seq<Seq<char>>, i32> {
        match self.walk_failure {
            Some(code) => Err(code),
            None => Ok(self.volumes@.map_values(|v: SimVolume| v.path@)),
        }
    }

    open spec fn device_number_of(&self, i: int) -> Option<u32> {
        if 0 <= i < self.volumes@.len() {
            self.volumes@[i].device_number
        } else {
            None
        }
    }

    open spec fn geometry_of(&self, i: int) -> Option<DriveGeometry> {
        if 0 <= i < self.volumes@.len() {
            self.volumes@[i].geometry
        } else {
            None
        }
    }

    open spec fn mounts_of(&self, i: int) -> Seq<Seq<char>> {
        if 0 <= i < self.volumes@.len() {
            self.volumes@[i].mount_points@.map_values(|p: String| p@)
        } else {
            Seq::empty()
        }
    }

    fn walk(&self) -> (r: Result<Vec<String>, i32>) {
        if let Some(code) = self.walk_failure {
            return Err(code);
        }
        let mut paths: Vec<String> = Vec::new();
        let mut i: usize = 0;
        while i < self.volumes.len()
            invariant
                i <= self.volumes@.len(),
                paths@.len() == i,
                forall|k: int| 0 <= k < i ==> #[trigger] paths@[k]@ == self.volumes@[k].path@,
            decreases self.volumes@.len() - i,
        {
            paths.push(clone_string(&self.volumes[i].path));
            i = i + 1;
        }
        proof {
            assert(paths@.map_values(|p: String| p@) =~= self.volumes@.map_values(
                |v: SimVolume| v.path@,
            ));
        }
        Ok(paths)
    }

    fn device_number(&self, i: usize) -> (r: Option<u32>) {
        self.volumes[i].device_number
    }

    fn geometry(&self, i: usize) -> (r: Option<DriveGeometry>) {
        self.volumes[i].geometry
    }

    fn mounts(&self, i: usize) -> (r: Vec<String>) {
        let source = &self.volumes[i].mount_points;
        let mut mounts: Vec<String> = Vec::new();
        let mut k: usize = 0;
        while k < source.len()
            invariant
                k <= source@.len(),
                mounts@.len() == k,
                forall|j: int| 0 <= j < k ==> #[trigger] mounts@[j]@ == source@[j]@,
            decreases source@.len() - k,
        {
            mounts.push(clone_string(&source[k]));
            k = k + 1;
        }
        proof {
            assert(mounts@.map_values(|p: String| p@) =~= source@.map_values(|p: String| p@));
        }
        mounts
    }
}

} // verus!

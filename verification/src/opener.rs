//! Resolving a device reference to an open stream.
//!
//! A reference is first opened as a physical disk; if that stage fails for
//! any reason — wrong prefix, bad index, or a refused open — the same
//! string is tried as a volume.  On a double failure the volume-stage error
//! is the one reported: the physical-disk failure only means "wrong class,
//! try the next one".

use vstd::prelude::*;
use crate::identifier::{
    extract_harddiskvolume_digits, extract_physical_drive_digits, physical_prefix,
    prefixed_digits_spec, volume_prefix, ReferenceError,
};

verus! {

/// The class of block device an open resolved to.
#[derive(Clone, Copy, PartialEq, Eq, Structural, Debug)]
pub enum DeviceClass {
    PhysicalDisk,
    Volume,
}

/// Why a device reference could not be opened.
#[derive(Clone, Copy, PartialEq, Eq, Structural, Debug)]
pub enum OpenError {
    /// The reference string yielded no index for the attempted class.
    Reference(ReferenceError),
    /// The device itself refused to open, with the OS error code.
    Device(i32),
}

/// Raw open access to the two classes of block devices.
///
/// An implementation is modeled by the outcome each index resolves to in
/// each class: the device's byte size when it opens, or the OS error code
/// its open fails with.
pub trait BlockDevices {
    /// The readable stream an open hands out.
    type Stream;

    /// What opening physical disk `index` yields.
    spec fn physical_outcome(&self, index: u8) -> Result<u64, i32>;

    /// What opening volume `index` yields.
    spec fn volume_outcome(&self, index: u8) -> Result<u64, i32>;

    /// Opens physical disk `index`, returning its stream and byte size.
    fn open_physical(&self, index: u8) -> (r: Result<(Self::Stream, u64), i32>)
        ensures
            match r {
                Ok((_, size)) => self.physical_outcome(index) == Ok::<u64, i32>(size),
                Err(code) => self.physical_outcome(index) == Err::<u64, i32>(code),
            },
    ;

    /// Opens volume `index`, returning its stream and byte size.
    fn open_volume(&self, index: u8) -> (r: Result<(Self::Stream, u64), i32>)
        ensures
            match r {
                Ok((_, size)) => self.volume_outcome(index) == Ok::<u64, i32>(size),
                Err(code) => self.volume_outcome(index) == Err::<u64, i32>(code),
            },
    ;
}

/// What the physical-disk stage of resolution yields for reference `s`:
/// the opened device's size, or the error of whichever step failed.
pub open spec fn physical_open_spec<D: BlockDevices>(devices: &D, s: Seq<char>) -> Result<
    u64,
    OpenError,
> {
    match prefixed_digits_spec(s, physical_prefix()) {
        Ok(n) => match devices.physical_outcome(n) {
            Ok(size) => Ok(size),
            Err(code) => Err(OpenError::Device(code)),
        },
        Err(e) => Err(OpenError::Reference(e)),
    }
}

/// What the volume stage of resolution yields for reference `s`.
pub open spec fn volume_open_spec<D: BlockDevices>(devices: &D, s: Seq<char>) -> Result<
    u64,
    OpenError,
> {
    match prefixed_digits_spec(s, volume_prefix()) {
        Ok(n) => match devices.volume_outcome(n) {
            Ok(size) => Ok(size),
            Err(code) => Err(OpenError::Device(code)),
        },
        Err(e) => Err(OpenError::Reference(e)),
    }
}

/// What resolving reference `s` with fallback yields: the physical-disk
/// stage when it succeeds, otherwise the volume stage, whose error is the
/// one surfaced on a double failure.
pub open spec fn open_drive_spec<D: BlockDevices>(devices: &D, s: Seq<char>) -> Result<
    (DeviceClass, u64),
    OpenError,
> {
    match physical_open_spec(devices, s) {
        Ok(size) => Ok((DeviceClass::PhysicalDisk, size)),
        Err(_) => match volume_open_spec(devices, s) {
            Ok(size) => Ok((DeviceClass::Volume, size)),
            Err(e) => Err(e),
        },
    }
}

/// Opens the device `drive_path` names as a physical disk: the digit suffix
/// after the physical-disk prefix is the index opened.
pub fn open_physical_disk<D: BlockDevices>(devices: &D, drive_path: &str) -> (r: Result<
    (D::Stream, u64),
    OpenError,
>)
    ensures
        match r {
            Ok((_, size)) => physical_open_spec(devices, drive_path@) == Ok::<u64, OpenError>(size),
            Err(e) => physical_open_spec(devices, drive_path@) == Err::<u64, OpenError>(e),
        },
{
    match extract_physical_drive_digits(drive_path) {
        Ok(index) => match devices.open_physical(index) {
            Ok((stream, size)) => Ok((stream, size)),
            Err(code) => Err(OpenError::Device(code)),
        },
        Err(e) => Err(OpenError::Reference(e)),
    }
}

/// Opens the device `drive_path` names as a volume: the digit suffix after
/// the volume prefix is the index opened.
pub fn open_harddisk_volume<D: BlockDevices>(devices: &D, drive_path: &str) -> (r: Result<
    (D::Stream, u64),
    OpenError,
>)
    ensures
        match r {
            Ok((_, size)) => volume_open_spec(devices, drive_path@) == Ok::<u64, OpenError>(size),
            Err(e) => volume_open_spec(devices, drive_path@) == Err::<u64, OpenError>(e),
        },
{
    match extract_harddiskvolume_digits(drive_path) {
        Ok(index) => match devices.open_volume(index) {
            Ok((stream, size)) => Ok((stream, size)),
            Err(code) => Err(OpenError::Device(code)),
        },
        Err(e) => Err(OpenError::Reference(e)),
    }
}

/// Resolves and opens a device reference, physical disk first, volume as
/// the fallback; the returned size is the one the successful stage
/// reported.
pub fn open_physical_drive<D: BlockDevices>(devices: &D, drive_path: &str) -> (r: Result<
    (D::Stream, u64),
    OpenError,
>)
    ensures
        match r {
            Ok((_, size)) => {
                ||| open_drive_spec(devices, drive_path@) == Ok::<(DeviceClass, u64), OpenError>(
                    (DeviceClass::PhysicalDisk, size),
                )
                ||| open_drive_spec(devices, drive_path@) == Ok::<(DeviceClass, u64), OpenError>(
                    (DeviceClass::Volume, size),
                )
            },
            Err(e) => open_drive_spec(devices, drive_path@) == Err::<(DeviceClass, u64), OpenError>(
                e,
            ),
        },
{
    match open_physical_disk(devices, drive_path) {
        Ok((stream, size)) => Ok((stream, size)),
        Err(_) => match open_harddisk_volume(devices, drive_path) {
            Ok((stream, size)) => Ok((stream, size)),
            Err(e) => Err(e),
        },
    }
}

/// Law: when the physical-disk stage fails but the volume stage opens with
/// size `size`, resolution succeeds with the volume's size, and the
/// physical-disk error is not the one surfaced.
pub proof fn lemma_open_fallback<D: BlockDevices>(devices: &D, s: Seq<char>, size: u64)
    requires
        physical_open_spec(devices, s) is Err,
        volume_open_spec(devices, s) == Ok::<u64, OpenError>(size),
    ensures
        open_drive_spec(devices, s) == Ok::<(DeviceClass, u64), OpenError>(
            (DeviceClass::Volume, size),
        ),
{
}

} // verus!

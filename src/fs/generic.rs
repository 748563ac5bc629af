//! The handler for filesystems without specific optimizations.
use vstd::prelude::*;
use crate::fs::common::{volume_contains_path, volume_holds, CopyStrategy, FsProbe};
use crate::types::{Volume, VolumeError};

verus! {

/// Handles filesystems that have no handler of their own.
#[derive(Clone, Copy, Debug, PartialEq, Eq, Structural)]
pub struct GenericFilesystemHandler;

impl GenericFilesystemHandler {
    pub fn new() -> (r: Self) {
        GenericFilesystemHandler
    }

    /// Nothing is added to a volume of an unknown filesystem.
    pub fn enhance_volume(&self, volume: &mut Volume, probe: FsProbe) -> (r: Result<(), VolumeError>)
        ensures
            r is Ok,
            final(volume)@ == old(volume)@,
    {
        Ok(())
    }

    /// Two paths share storage when the operating system reports the same
    /// device identifier for both; without both identifiers, they are taken
    /// to differ.
    pub fn same_physical_storage(&self, device1: Option<u64>, device2: Option<u64>) -> (r: bool)
        ensures
            r == (device1 is Some && device2 is Some && device1 == device2),
    {
        match (device1, device2) {
            (Some(a), Some(b)) => a == b,
            _ => false,
        }
    }

    /// Streaming copy, the safe default.
    pub fn get_copy_strategy(&self) -> (r: CopyStrategy)
        ensures
            r == CopyStrategy::LocalStream,
    {
        CopyStrategy::LocalStream
    }

    pub fn contains_path(&self, volume: &Volume, path: &str) -> (r: bool)
        ensures
            r == volume_holds(volume@, path@),
    {
        volume_contains_path(volume, path)
    }
}

} // verus!

//! NTFS: volume identity, feature flags, hard links and junctions.
use vstd::prelude::*;
use crate::fs::common::{
    best_disk, find_disk_for_path, no_disk_holds, volume_contains_path, volume_holds, CopyStrategy,
    FsProbe,
};
use crate::text::{has_prefix, starts_with, substring, upper_of, uppercase};
use crate::types::{DiskRecord, FilesystemMetadata, NtfsFeatures, Platform, Volume, VolumeError};

verus! {

/// What is known of the NTFS-like volume that holds a path.
#[derive(Debug)]
pub struct NtfsVolumeInfo {
    pub volume_guid: String,
    pub file_system: String,
    pub drive_letter: Option<char>,
    pub label: Option<String>,
    pub size_bytes: u64,
    pub available_bytes: u64,
    pub disk_number: Option<u32>,
    pub partition_number: Option<u32>,
    pub media_type: Option<String>,
}

/// The media type that enumeration implies: `Removable` or `Fixed`.
pub open spec fn media_type_of(removable: bool) -> Seq<char> {
    if removable {
        "Removable"@
    } else {
        "Fixed"@
    }
}

pub fn media_type_name(removable: bool) -> (r: String)
    ensures
        r@ == media_type_of(removable),
{
    if removable {
        String::from_str("Removable")
    } else {
        String::from_str("Fixed")
    }
}

/// The first character of a mount point, which on Windows is its drive letter.
pub open spec fn first_char(s: Seq<char>) -> Option<char> {
    if s.len() > 0 {
        Some(s[0])
    } else {
        None
    }
}

pub fn first_character(s: &str) -> (r: Option<char>)
    ensures
        r == first_char(s@),
{
    if s.unicode_len() > 0 {
        Some(s.get_char(0))
    } else {
        None
    }
}

/// The volume information of a disk; its mount point stands in for the volume GUID.
pub open spec fn ntfs_info_matches(info: NtfsVolumeInfo, d: DiskRecord) -> bool {
    &&& info.volume_guid@ == d.mount_point@
    &&& info.file_system@ == d.file_system@
    &&& info.drive_letter == first_char(d.mount_point@)
    &&& info.label matches Some(l) && l@ == d.name@
    &&& info.size_bytes == d.total_space
    &&& info.available_bytes == d.available_space
    &&& info.disk_number is None
    &&& info.partition_number is None
    &&& info.media_type matches Some(m) && m@ == media_type_of(d.is_removable)
}

pub fn ntfs_info_from_disk(d: &DiskRecord) -> (r: NtfsVolumeInfo)
    ensures
        ntfs_info_matches(r, *d),
{
    NtfsVolumeInfo {
        volume_guid: d.mount_point.clone(),
        file_system: d.file_system.clone(),
        drive_letter: first_character(d.mount_point.as_str()),
        label: Some(d.name.clone()),
        size_bytes: d.total_space,
        available_bytes: d.available_space,
        disk_number: None,
        partition_number: None,
        media_type: Some(media_type_name(d.is_removable)),
    }
}

pub const FILE_FILE_COMPRESSION: u32 = 0x10;
pub const FILE_SUPPORTS_REPARSE_POINTS: u32 = 0x80;
pub const FILE_SUPPORTS_ENCRYPTION: u32 = 0x20000;
pub const FILE_NAMED_STREAMS: u32 = 0x40000;
pub const FILE_SUPPORTS_HARD_LINKS: u32 = 0x400000;

/// The features that a volume's information flags announce.
pub open spec fn features_of_flags(flags: u32) -> NtfsFeatures {
    NtfsFeatures {
        supports_hardlinks: flags & FILE_SUPPORTS_HARD_LINKS != 0,
        supports_junctions: flags & FILE_SUPPORTS_REPARSE_POINTS != 0,
        supports_symlinks: flags & FILE_SUPPORTS_REPARSE_POINTS != 0,
        supports_streams: flags & FILE_NAMED_STREAMS != 0,
        supports_compression: flags & FILE_FILE_COMPRESSION != 0,
        supports_encryption: flags & FILE_SUPPORTS_ENCRYPTION != 0,
    }
}

/// Every feature supported.
pub open spec fn all_features() -> NtfsFeatures {
    NtfsFeatures {
        supports_hardlinks: true,
        supports_junctions: true,
        supports_symlinks: true,
        supports_streams: true,
        supports_compression: true,
        supports_encryption: true,
    }
}

impl NtfsFeatures {
    /// The features that a volume's information flags announce.
    pub fn from_flags(flags: u32) -> (r: NtfsFeatures)
        ensures
            r == features_of_flags(flags),
    {
        NtfsFeatures {
            supports_hardlinks: flags & FILE_SUPPORTS_HARD_LINKS != 0,
            supports_junctions: flags & FILE_SUPPORTS_REPARSE_POINTS != 0,
            supports_symlinks: flags & FILE_SUPPORTS_REPARSE_POINTS != 0,
            supports_streams: flags & FILE_NAMED_STREAMS != 0,
            supports_compression: flags & FILE_FILE_COMPRESSION != 0,
            supports_encryption: flags & FILE_SUPPORTS_ENCRYPTION != 0,
        }
    }

    /// Every feature supported.
    pub fn all() -> (r: NtfsFeatures)
        ensures
            r == all_features(),
    {
        NtfsFeatures {
            supports_hardlinks: true,
            supports_junctions: true,
            supports_symlinks: true,
            supports_streams: true,
            supports_compression: true,
            supports_encryption: true,
        }
    }
}

/// A name in upper case is `NTFS`.
pub open spec fn is_ntfs_name(fs: Seq<char>) -> bool {
    upper_of(fs) == "NTFS"@
}

/// Handles NTFS volumes.
#[derive(Clone, Copy, Debug, PartialEq, Eq, Structural)]
pub struct NtfsHandler;

impl NtfsHandler {
    pub fn new() -> (r: Self) {
        NtfsHandler
    }

    /// The information of the volume that holds `path`, among the enumerated disks.
    pub fn get_volume_info(&self, disks: &Vec<DiskRecord>, path: &str) -> (r: Result<
        NtfsVolumeInfo,
        VolumeError,
    >)
        ensures
            r is Err <==> no_disk_holds(disks@, path@),
            r matches Err(e) ==> e matches VolumeError::NotFound(p) && p@ == path@,
            r matches Ok(info) ==> exists|i: int|
                best_disk(disks@, path@, i) && ntfs_info_matches(info, #[trigger] disks@[i]),
    {
        match find_disk_for_path(disks, path) {
            Some(i) => Ok(ntfs_info_from_disk(&disks[i])),
            None => Err(VolumeError::NotFound(String::from_str(path))),
        }
    }

    /// Two paths share storage when both lie on known volumes with the same GUID.
    pub fn same_physical_storage(&self, disks: &Vec<DiskRecord>, path1: &str, path2: &str) -> (r: bool)
        ensures
            r <==> exists|i: int, j: int|
                best_disk(disks@, path1@, i) && best_disk(disks@, path2@, j) && (#[trigger] disks@[i]).mount_point@
                    == (#[trigger] disks@[j]).mount_point@,
    {
        let v1 = self.get_volume_info(disks, path1);
        let v2 = self.get_volume_info(disks, path2);
        match (v1, v2) {
            (Ok(a), Ok(b)) => a.volume_guid.eq(&b.volume_guid),
            _ => false,
        }
    }

    /// Hard links are supported where the volume holding `path` is NTFS.
    pub fn supports_hardlinks(&self, disks: &Vec<DiskRecord>, path: &str) -> (r: bool)
        ensures
            r <==> exists|i: int|
                best_disk(disks@, path@, i) && is_ntfs_name((#[trigger] disks@[i]).file_system@),
    {
        match self.get_volume_info(disks, path) {
            Ok(info) => {
                let u = uppercase(info.file_system.as_str());
                let n = String::from_str("NTFS");
                u.eq(&n)
            },
            Err(_) => false,
        }
    }

    /// Junction points are supported where the volume holding `path` is NTFS.
    pub fn supports_junctions(&self, disks: &Vec<DiskRecord>, path: &str) -> (r: bool)
        ensures
            r <==> exists|i: int|
                best_disk(disks@, path@, i) && is_ntfs_name((#[trigger] disks@[i]).file_system@),
    {
        self.supports_hardlinks(disks, path)
    }

    /// The resolved form of `path`: the canonical path without its `\\?\`
    /// prefix, or `path` itself where it could not be canonicalized.
    pub fn resolve_ntfs_path(&self, path: &str, canonical: Option<&str>) -> (r: String)
        ensures
            canonical is None ==> r@ == path@,
            canonical matches Some(c) ==> r@ == (if has_prefix(c@, crate::path::verbatim_prefix()) {
                c@.subrange(4, c@.len() as int)
            } else {
                c@
            }),
    {
        proof {
            reveal_strlit("\\\\?\\");
        }
        assert("\\\\?\\"@ =~= crate::path::verbatim_prefix());
        match canonical {
            Some(c) => {
                if starts_with(c, "\\\\?\\") {
                    substring(c, 4, c.unicode_len())
                } else {
                    String::from_str(c)
                }
            },
            None => String::from_str(path),
        }
    }

    /// The features of the volume: decoded from its information flags on
    /// Windows, where a failed query is a platform error; assumed complete elsewhere.
    pub fn get_ntfs_features(&self, platform: Platform, flags: Option<u32>) -> (r: Result<
        NtfsFeatures,
        VolumeError,
    >)
        ensures
            platform is Windows ==> (r is Err <==> flags is None),
            platform is Windows ==> (r is Err ==> r matches Err(VolumeError::Platform(_))),
            (platform is Windows && flags is Some) ==> r == Ok::<NtfsFeatures, VolumeError>(
                features_of_flags(flags->Some_0),
            ),
            !(platform is Windows) ==> r == Ok::<NtfsFeatures, VolumeError>(all_features()),
    {
        match platform {
            Platform::Windows => match flags {
                Some(f) => Ok(NtfsFeatures::from_flags(f)),
                None => Err(VolumeError::Platform(String::from_str("Failed to get volume information"))),
            },
            _ => Ok(NtfsFeatures::all()),
        }
    }

    /// Records the probed features in the volume's metadata; a failed probe
    /// leaves the volume as it was. Never fails.
    pub fn enhance_volume(&self, volume: &mut Volume, probe: FsProbe) -> (r: Result<(), VolumeError>)
        ensures
            r is Ok,
            probe matches FsProbe::Ntfs(f) ==> final(volume)@ == (crate::types::VolumeView {
                filesystem_metadata: Some(FilesystemMetadata::Ntfs(f)),
                ..old(volume)@
            }),
            !(probe is Ntfs) ==> final(volume)@ == old(volume)@,
    {
        match probe {
            FsProbe::Ntfs(f) => {
                volume.filesystem_metadata = Some(FilesystemMetadata::Ntfs(f));
            },
            _ => {},
        }
        Ok(())
    }

    /// Streaming copy: NTFS has no block-cloning primitive.
    pub fn get_copy_strategy(&self) -> (r: CopyStrategy)
        ensures
            r == CopyStrategy::LocalStream,
    {
        CopyStrategy::LocalStream
    }

    pub fn contains_path(&self, volume: &Volume, path: &str) -> (r: bool)
        ensures
            r == volume_holds(volume@, path@),
    {
        volume_contains_path(volume, path)
    }
}

/// Enhances a volume with the NTFS features that a probe found.
pub fn enhance_volume_from_windows(volume: &mut Volume, probe: FsProbe) -> (r: Result<(), VolumeError>)
    ensures
        r is Ok,
        probe matches FsProbe::Ntfs(f) ==> final(volume)@ == (crate::types::VolumeView {
            filesystem_metadata: Some(FilesystemMetadata::Ntfs(f)),
            ..old(volume)@
        }),
        !(probe is Ntfs) ==> final(volume)@ == old(volume)@,
{
    let handler = NtfsHandler::new();
    handler.enhance_volume(volume, probe)
}

} // verus!

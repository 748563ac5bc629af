//! The volume record and the enumerations that classify it.
use vstd::prelude::*;
use crate::fingerprint::{FingerprintView, VolumeFingerprint};

verus! {

/// The operating-system family whose path conventions apply.
#[derive(Clone, Copy, Debug, PartialEq, Eq, Structural)]
pub enum Platform {
    Windows,
    MacOs,
    Linux,
}

impl Platform {
    pub open spec fn case_insensitive(self) -> bool {
        self is Windows || self is MacOs
    }

    /// Whether paths on this platform compare without regard to case.
    pub fn is_case_insensitive(self) -> (r: bool)
        ensures
            r == self.case_insensitive(),
    {
        match self {
            Platform::Windows => true,
            Platform::MacOs => true,
            Platform::Linux => false,
        }
    }
}

/// How a volume relates to the operating system.
#[derive(Clone, Copy, Debug, PartialEq, Eq, Structural)]
pub enum MountType {
    System,
    User,
    External,
    Network,
}

/// The semantic role of a volume.
#[derive(Clone, Copy, Debug, PartialEq, Eq, Structural)]
pub enum VolumeType {
    Primary,
    UserData,
    Secondary,
    External,
    Network,
    Virtual,
    System,
    Unknown,
}

/// The storage medium behind a volume.
#[derive(Clone, Copy, Debug, PartialEq, Eq, Structural)]
pub enum DiskType {
    HDD,
    SSD,
    Unknown,
}

/// The filesystem family of a volume.
#[derive(Clone, Copy, Debug, PartialEq, Eq, Structural)]
pub enum FileSystem {
    NTFS,
    FAT32,
    ExFAT,
    ReFS,
    APFS,
    HFSPlus,
    Ext4,
    Btrfs,
    ZFS,
    Other,
}

/// Feature support of an NTFS-like volume, as its volume-information flags report it.
#[derive(Clone, Copy, Debug, PartialEq, Eq, Structural)]
pub struct NtfsFeatures {
    pub supports_hardlinks: bool,
    pub supports_junctions: bool,
    pub supports_symlinks: bool,
    pub supports_streams: bool,
    pub supports_compression: bool,
    pub supports_encryption: bool,
}

/// Filesystem-specific metadata that enhancement attaches to a volume.
#[derive(Clone, Copy, Debug, PartialEq, Eq, Structural)]
pub enum FilesystemMetadata {
    Ntfs(NtfsFeatures),
    Refs { supports_block_cloning: bool },
}

/// Which volumes a detection pass surfaces.
#[derive(Clone, Copy, Debug, PartialEq, Eq, Structural)]
pub struct VolumeDetectionConfig {
    pub include_system: bool,
    pub include_virtual: bool,
}

impl VolumeDetectionConfig {
    /// Surfaces system volumes and leaves out virtual (zero-capacity) ones.
    pub fn new() -> (r: Self)
        ensures
            r.include_system,
            !r.include_virtual,
    {
        VolumeDetectionConfig { include_system: true, include_virtual: false }
    }
}

/// A disk as platform enumeration reports it, before classification.
#[derive(Debug)]
pub struct DiskRecord {
    pub mount_point: String,
    pub name: String,
    pub file_system: String,
    pub total_space: u64,
    pub available_space: u64,
    pub is_removable: bool,
    pub disk_type: DiskType,
}

impl Default for VolumeDetectionConfig {
    fn default() -> (r: Self)
        ensures
            r.include_system,
            !r.include_virtual,
    {
        VolumeDetectionConfig::new()
    }
}

/// Why a volume operation failed.
#[derive(Debug)]
pub enum VolumeError {
    /// No volume matches the given path or identity.
    NotFound(String),
    /// A native platform call failed.
    Platform(String),
    /// A worker-pool task could not be joined.
    TaskJoin(String),
    /// The tracked-volume store refused the operation.
    Database(String),
    /// An internal invariant did not hold.
    Internal(String),
}

/// A physical or logical storage unit as the last detection pass saw it.
#[derive(Debug)]
pub struct Volume {
    pub device_id: u128,
    pub fingerprint: VolumeFingerprint,
    pub name: String,
    pub mount_point: String,
    pub mount_points: Vec<String>,
    pub mount_type: MountType,
    pub volume_type: VolumeType,
    pub disk_type: DiskType,
    pub file_system: FileSystem,
    pub total_capacity: u64,
    pub available_space: u64,
    pub is_read_only: bool,
    pub is_tracked: bool,
    pub library_id: Option<u128>,
    pub hardware_id: Option<String>,
    pub filesystem_metadata: Option<FilesystemMetadata>,
}

/// The mathematical content of a [`Volume`].
pub ghost struct VolumeView {
    pub device_id: u128,
    pub fingerprint: FingerprintView,
    pub name: Seq<char>,
    pub mount_point: Seq<char>,
    pub mount_points: Seq<Seq<char>>,
    pub mount_type: MountType,
    pub volume_type: VolumeType,
    pub disk_type: DiskType,
    pub file_system: FileSystem,
    pub total_capacity: u64,
    pub available_space: u64,
    pub is_read_only: bool,
    pub is_tracked: bool,
    pub library_id: Option<u128>,
    pub hardware_id: Option<Seq<char>>,
    pub filesystem_metadata: Option<FilesystemMetadata>,
}

pub open spec fn string_views(v: Seq<String>) -> Seq<Seq<char>> {
    v.map_values(|s: String| s@)
}

impl View for Volume {
    type V = VolumeView;

    open spec fn view(&self) -> VolumeView {
        VolumeView {
            device_id: self.device_id,
            fingerprint: self.fingerprint@,
            name: self.name@,
            mount_point: self.mount_point@,
            mount_points: string_views(self.mount_points@),
            mount_type: self.mount_type,
            volume_type: self.volume_type,
            disk_type: self.disk_type,
            file_system: self.file_system,
            total_capacity: self.total_capacity,
            available_space: self.available_space,
            is_read_only: self.is_read_only,
            is_tracked: self.is_tracked,
            library_id: self.library_id,
            hardware_id: match self.hardware_id {
                Some(h) => Some(h@),
                None => None,
            },
            filesystem_metadata: self.filesystem_metadata,
        }
    }
}

fn clone_strings(v: &Vec<String>) -> (r: Vec<String>)
    ensures
        r@ == v@,
{
    let mut r: Vec<String> = Vec::new();
    let mut i: usize = 0;
    while i < v.len()
        invariant
            i <= v@.len(),
            r@ == v@.subrange(0, i as int),
        decreases v@.len() - i,
    {
        r.push(v[i].clone());
        i = i + 1;
        assert(r@ =~= v@.subrange(0, i as int));
    }
    assert(v@.subrange(0, v@.len() as int) =~= v@);
    r
}

impl Volume {
    /// The record's invariant: no more space is available than the volume holds.
    pub open spec fn wf(&self) -> bool {
        self.available_space <= self.total_capacity
    }

    /// A fresh, untracked record with one mount point and no capacity yet.
    pub fn new(device_id: u128, fingerprint: VolumeFingerprint, name: String, mount_point: String) -> (r: Self)
        ensures
            r.wf(),
            r.device_id == device_id,
            r.fingerprint@ == fingerprint@,
            r.name@ == name@,
            r.mount_point@ == mount_point@,
            r.mount_points@.len() == 0,
            r.mount_type == MountType::User,
            r.volume_type == VolumeType::Unknown,
            r.disk_type == DiskType::Unknown,
            r.file_system == FileSystem::Other,
            r.total_capacity == 0,
            r.available_space == 0,
            !r.is_read_only,
            !r.is_tracked,
            r.library_id is None,
            r.hardware_id is None,
            r.filesystem_metadata is None,
    {
        Volume {
            device_id,
            fingerprint,
            name,
            mount_point,
            mount_points: Vec::new(),
            mount_type: MountType::User,
            volume_type: VolumeType::Unknown,
            disk_type: DiskType::Unknown,
            file_system: FileSystem::Other,
            total_capacity: 0,
            available_space: 0,
            is_read_only: false,
            is_tracked: false,
            library_id: None,
            hardware_id: None,
            filesystem_metadata: None,
        }
    }

    /// The volume's total size in bytes.
    pub fn total_bytes_capacity(&self) -> (r: u64)
        ensures
            r == self.total_capacity,
    {
        self.total_capacity
    }

    /// A copy of the record.
    pub fn duplicate(&self) -> (r: Self)
        ensures
            r@ == self@,
    {
        let hardware_id = match &self.hardware_id {
            Some(h) => Some(h.clone()),
            None => None,
        };
        let mount_points = clone_strings(&self.mount_points);
        assert(string_views(mount_points@) == string_views(self.mount_points@));
        Volume {
            device_id: self.device_id,
            fingerprint: self.fingerprint.duplicate(),
            name: self.name.clone(),
            mount_point: self.mount_point.clone(),
            mount_points,
            mount_type: self.mount_type,
            volume_type: self.volume_type,
            disk_type: self.disk_type,
            file_system: self.file_system,
            total_capacity: self.total_capacity,
            available_space: self.available_space,
            is_read_only: self.is_read_only,
            is_tracked: self.is_tracked,
            library_id: self.library_id,
            hardware_id,
            filesystem_metadata: self.filesystem_metadata,
        }
    }
}

/// The text of an error: what failed, then its detail.
pub open spec fn error_text(e: VolumeError) -> Seq<char> {
    match e {
        VolumeError::NotFound(m) => "Volume not found: "@ + m@,
        VolumeError::Platform(m) => "Platform error: "@ + m@,
        VolumeError::TaskJoin(m) => "Task join error: "@ + m@,
        VolumeError::Database(m) => "Database error: "@ + m@,
        VolumeError::Internal(m) => "Internal error: "@ + m@,
    }
}

impl VolumeError {
    /// A description of the error for diagnostics.
    pub fn message(&self) -> (r: String)
        ensures
            r@ == error_text(*self),
    {
        match self {
            VolumeError::NotFound(m) => String::from_str("Volume not found: ").concat(m.as_str()),
            VolumeError::Platform(m) => String::from_str("Platform error: ").concat(m.as_str()),
            VolumeError::TaskJoin(m) => String::from_str("Task join error: ").concat(m.as_str()),
            VolumeError::Database(m) => String::from_str("Database error: ").concat(m.as_str()),
            VolumeError::Internal(m) => String::from_str("Internal error: ").concat(m.as_str()),
        }
    }
}

} // verus!

//! Turning enumerated disks into classified, fingerprinted volume records.
use vstd::prelude::*;
use crate::classify::{
    classification, classify_volume, determine_disk_mount_type, determine_mount_type_windows,
    disk_mount_type, filesystem_of_upper, parse_filesystem_type, windows_drive_mount_type,
};
use crate::fingerprint::{
    external_fingerprint, network_fingerprint, primary_fingerprint, FingerprintView, VolumeFingerprint,
};
use crate::text::{lower_of, lowercase, substring, upper_of};
use crate::types::{
    DiskRecord, DiskType, MountType, Platform, Volume, VolumeDetectionConfig, VolumeType, VolumeView,
    string_views,
};

verus! {

/// What a Windows volume query reports.
#[derive(Debug)]
pub struct WindowsVolumeInfo {
    pub drive_letter: Option<String>,
    pub label: Option<String>,
    pub size: u64,
    pub size_remaining: u64,
    pub filesystem: String,
    pub volume_guid: Option<String>,
}

/// A disk with a mount point and a nonzero size; any other is skipped.
pub open spec fn disk_usable(d: DiskRecord) -> bool {
    d.mount_point@.len() > 0 && d.total_space > 0
}

/// The fingerprint of a detected volume, by the rule of its type: an external
/// volume by its marker (by its path where it has none), a network volume by
/// its address (case-folded where paths ignore case), any other by its path.
pub open spec fn detected_fingerprint(
    mount: Seq<char>,
    backend: Seq<char>,
    vt: VolumeType,
    device_id: u128,
    platform: Platform,
    marker: Option<u128>,
) -> FingerprintView {
    match vt {
        VolumeType::External => match marker {
            Some(m) => external_fingerprint(m, device_id),
            None => primary_fingerprint(mount, device_id, platform),
        },
        VolumeType::Network => network_fingerprint(backend),
        _ => primary_fingerprint(mount, device_id, platform),
    }
}

/// The network backend address that enumeration implies: the mount path,
/// lower-cased where paths ignore case.
pub open spec fn network_backend(mount: Seq<char>, platform: Platform) -> Seq<char> {
    if platform.case_insensitive() {
        lower_of(mount)
    } else {
        mount
    }
}

/// The name shown for a disk: its own, or `Local Disk (C:)` from the first two
/// characters of its mount point, or `Local Disk`.
pub open spec fn display_name(name: Seq<char>, mount: Seq<char>) -> Seq<char> {
    if name.len() > 0 {
        name
    } else if mount.len() >= 2 {
        "Local Disk ("@ + mount.subrange(0, 2) + ")"@
    } else {
        "Local Disk"@
    }
}

pub open spec fn clamp_available(available: u64, total: u64) -> u64 {
    if available <= total {
        available
    } else {
        total
    }
}

pub open spec fn disk_volume_type(d: DiskRecord, platform: Platform) -> VolumeType {
    classification(d.mount_point@, d.total_space, Some(d.is_removable), None, platform)
}

/// The record detection builds for a usable disk.
pub open spec fn volume_of_disk(d: DiskRecord, device_id: u128, platform: Platform, marker: Option<u128>) -> VolumeView {
    let vt = disk_volume_type(d, platform);
    VolumeView {
        device_id,
        fingerprint: detected_fingerprint(
            d.mount_point@,
            network_backend(d.mount_point@, platform),
            vt,
            device_id,
            platform,
            marker,
        ),
        name: display_name(d.name@, d.mount_point@),
        mount_point: d.mount_point@,
        mount_points: Seq::empty(),
        mount_type: disk_mount_type(d.mount_point@, d.is_removable),
        volume_type: vt,
        disk_type: d.disk_type,
        file_system: filesystem_of_upper(upper_of(d.file_system@)),
        total_capacity: d.total_space,
        available_space: clamp_available(d.available_space, d.total_space),
        is_read_only: false,
        is_tracked: false,
        library_id: None,
        hardware_id: None,
        filesystem_metadata: None,
    }
}

fn disk_display_name(name: &str, mount: &str) -> (r: String)
    ensures
        r@ == display_name(name@, mount@),
{
    proof {
        reveal_strlit("Local Disk (");
        reveal_strlit(")");
        reveal_strlit("Local Disk");
    }
    if name.unicode_len() > 0 {
        String::from_str(name)
    } else if mount.unicode_len() >= 2 {
        let head = substring(mount, 0, 2);
        String::from_str("Local Disk (").concat(head.as_str()).concat(")")
    } else {
        String::from_str("Local Disk")
    }
}

fn fingerprint_for(
    mount: &str,
    vt: VolumeType,
    device_id: u128,
    platform: Platform,
    marker: Option<u128>,
) -> (r: VolumeFingerprint)
    ensures
        r@ == detected_fingerprint(mount@, network_backend(mount@, platform), vt, device_id, platform, marker),
{
    match vt {
        VolumeType::External => match marker {
            Some(m) => VolumeFingerprint::from_external_volume(m, device_id),
            None => VolumeFingerprint::from_primary_volume(mount, device_id, platform),
        },
        VolumeType::Network => {
            let backend = if platform.is_case_insensitive() {
                lowercase(mount)
            } else {
                String::from_str(mount)
            };
            VolumeFingerprint::from_network_volume(backend.as_str(), mount)
        },
        _ => VolumeFingerprint::from_primary_volume(mount, device_id, platform),
    }
}

/// Whether detection needs the disk's marker identifier: it is usable and
/// classified as external.
pub fn needs_marker(disk: &DiskRecord, platform: Platform) -> (r: bool)
    ensures
        r == (disk_usable(*disk) && disk_volume_type(*disk, platform) == VolumeType::External),
{
    if disk.mount_point.as_str().unicode_len() == 0 || disk.total_space == 0 {
        return false;
    }
    let vt = classify_volume(
        disk.mount_point.as_str(),
        parse_filesystem_type(disk.file_system.as_str()),
        disk.name.as_str(),
        disk.total_space,
        disk.is_removable,
        platform,
    );
    vt == VolumeType::External
}

/// The volume record of an enumerated disk, or `None` for a disk without a
/// mount point or size. `marker` is the identifier read from (or written to)
/// the disk's marker file, where there is one.
pub fn volume_from_disk(disk: &DiskRecord, device_id: u128, platform: Platform, marker: Option<u128>) -> (r: Option<Volume>)
    ensures
        r is None <==> !disk_usable(*disk),
        r matches Some(v) ==> v@ == volume_of_disk(*disk, device_id, platform, marker) && v.wf(),
{
    let mount = disk.mount_point.as_str();
    if mount.unicode_len() == 0 || disk.total_space == 0 {
        return None;
    }
    let file_system = parse_filesystem_type(disk.file_system.as_str());
    let mount_type = determine_disk_mount_type(mount, disk.is_removable);
    let volume_type = classify_volume(
        mount,
        file_system,
        disk.name.as_str(),
        disk.total_space,
        disk.is_removable,
        platform,
    );
    let fingerprint = fingerprint_for(mount, volume_type, device_id, platform, marker);
    let name = disk_display_name(disk.name.as_str(), mount);
    let mut volume = Volume::new(device_id, fingerprint, name, disk.mount_point.clone());
    volume.mount_type = mount_type;
    volume.volume_type = volume_type;
    volume.disk_type = disk.disk_type;
    volume.file_system = file_system;
    volume.total_capacity = disk.total_space;
    volume.available_space = if disk.available_space <= disk.total_space {
        disk.available_space
    } else {
        disk.total_space
    };
    volume.is_read_only = false;
    assert(string_views(volume.mount_points@) =~= Seq::<Seq<char>>::empty());
    Some(volume)
}

/// Whether the configuration surfaces the volume: system volumes only when
/// asked for, zero-capacity volumes only when virtual ones are.
pub open spec fn included(v: VolumeView, config: VolumeDetectionConfig) -> bool {
    !(!config.include_system && v.mount_type == MountType::System) && !(!config.include_virtual
        && v.total_capacity == 0)
}

pub fn should_include_volume(volume: &Volume, config: &VolumeDetectionConfig) -> (r: bool)
    ensures
        r == included(volume@, *config),
{
    if !config.include_system && volume.mount_type == MountType::System {
        return false;
    }
    if !config.include_virtual && volume.total_bytes_capacity() == 0 {
        return false;
    }
    true
}

/// The marker found for disk `i`, if any.
pub open spec fn marker_at(markers: Seq<Option<u128>>, i: int) -> Option<u128> {
    if 0 <= i < markers.len() {
        markers[i]
    } else {
        None
    }
}

/// The records a detection pass yields from the first `n` disks: one per
/// usable disk that the configuration surfaces, in enumeration order.
pub open spec fn detected(
    disks: Seq<DiskRecord>,
    markers: Seq<Option<u128>>,
    n: int,
    device_id: u128,
    platform: Platform,
    config: VolumeDetectionConfig,
) -> Seq<VolumeView>
    decreases n,
{
    if n <= 0 {
        Seq::empty()
    } else {
        let prev = detected(disks, markers, n - 1, device_id, platform, config);
        let d = disks[n - 1];
        let v = volume_of_disk(d, device_id, platform, marker_at(markers, n - 1));
        if disk_usable(d) && included(v, config) {
            prev.push(v)
        } else {
            prev
        }
    }
}

/// The volumes of a detection pass over enumerated disks. `markers[i]` is the
/// marker identifier of disk `i`, where one was read or created.
pub fn detect_volumes_from_disks(
    device_id: u128,
    disks: &Vec<DiskRecord>,
    markers: &Vec<Option<u128>>,
    platform: Platform,
    config: &VolumeDetectionConfig,
) -> (r: Vec<Volume>)
    ensures
        r@.map_values(|v: Volume| v@) == detected(
            disks@,
            markers@,
            disks@.len() as int,
            device_id,
            platform,
            *config,
        ),
        forall|k: int| 0 <= k < r@.len() ==> (#[trigger] r@[k]).wf(),
{
    let mut out: Vec<Volume> = Vec::new();
    let mut i: usize = 0;
    while i < disks.len()
        invariant
            i <= disks@.len(),
            out@.map_values(|v: Volume| v@) == detected(disks@, markers@, i as int, device_id, platform, *config),
            forall|k: int| 0 <= k < out@.len() ==> (#[trigger] out@[k]).wf(),
        decreases disks@.len() - i,
    {
        let marker = if i < markers.len() {
            markers[i]
        } else {
            None
        };
        match volume_from_disk(&disks[i], device_id, platform, marker) {
            Some(v) => {
                if should_include_volume(&v, config) {
                    out.push(v);
                }
            },
            None => {},
        }
        assert(out@.map_values(|v: Volume| v@) =~= detected(
            disks@,
            markers@,
            i + 1,
            device_id,
            platform,
            *config,
        ));
        i = i + 1;
    }
    out
}

/// The mount path of a Windows volume: its drive root, or `C:\` without a letter.
pub open spec fn windows_mount_path(drive: Option<String>) -> Seq<char> {
    match drive {
        Some(d) => d@ + ":\\"@,
        None => "C:\\"@,
    }
}

/// The name of a Windows volume: its label, else one made from its drive letter.
pub open spec fn windows_volume_name(label: Option<String>, drive: Option<String>) -> Seq<char> {
    match label {
        Some(l) => l@,
        None => match drive {
            Some(d) => "Local Disk ("@ + d@ + ":)"@,
            None => "Unknown Drive"@,
        },
    }
}

/// The record built from a Windows volume query.
pub open spec fn volume_of_windows_info(info: WindowsVolumeInfo, device_id: u128) -> VolumeView {
    let mount = windows_mount_path(info.drive_letter);
    let vt = classification(mount, info.size, Some(false), None, Platform::Windows);
    let backend = match info.volume_guid {
        Some(g) => g@,
        None => mount,
    };
    VolumeView {
        device_id,
        fingerprint: detected_fingerprint(mount, backend, vt, device_id, Platform::Windows, None),
        name: windows_volume_name(info.label, info.drive_letter),
        mount_point: mount,
        mount_points: Seq::empty(),
        mount_type: match info.drive_letter {
            Some(d) => windows_drive_mount_type(mount),
            None => MountType::System,
        },
        volume_type: vt,
        disk_type: DiskType::Unknown,
        file_system: filesystem_of_upper(upper_of(info.filesystem@)),
        total_capacity: info.size,
        available_space: clamp_available(info.size_remaining, info.size),
        is_read_only: false,
        is_tracked: false,
        library_id: None,
        hardware_id: match info.volume_guid {
            Some(g) => Some(g@),
            None => None,
        },
        filesystem_metadata: None,
    }
}

/// Builds the record of a volume from what a Windows volume query reported.
/// A volume reported without a size is still built, and classified as virtual.
pub fn create_volume_from_windows_info(info: WindowsVolumeInfo, device_id: u128) -> (r: Result<Volume, crate::types::VolumeError>)
    ensures
        r matches Ok(v) && v@ == volume_of_windows_info(info, device_id) && v.wf(),
{
    proof {
        reveal_strlit(":\\");
        reveal_strlit("C:\\");
        reveal_strlit("Local Disk (");
        reveal_strlit(":)");
        reveal_strlit("Unknown Drive");
    }
    let mount_path = match &info.drive_letter {
        Some(d) => d.clone().concat(":\\"),
        None => String::from_str("C:\\"),
    };
    let name = match &info.label {
        Some(l) => l.clone(),
        None => match &info.drive_letter {
            Some(d) => String::from_str("Local Disk (").concat(d.as_str()).concat(":)"),
            None => String::from_str("Unknown Drive"),
        },
    };
    let file_system = parse_filesystem_type(info.filesystem.as_str());
    let mount_type = match &info.drive_letter {
        Some(_) => determine_mount_type_windows(mount_path.as_str()),
        None => MountType::System,
    };
    let volume_type = classify_volume(
        mount_path.as_str(),
        file_system,
        name.as_str(),
        info.size,
        false,
        Platform::Windows,
    );
    let fingerprint = match volume_type {
        VolumeType::Network => match &info.volume_guid {
            Some(g) => VolumeFingerprint::from_network_volume(g.as_str(), mount_path.as_str()),
            None => VolumeFingerprint::from_network_volume(mount_path.as_str(), mount_path.as_str()),
        },
        _ => VolumeFingerprint::from_primary_volume(mount_path.as_str(), device_id, Platform::Windows),
    };
    let mount_copy = mount_path.clone();
    let mut volume = Volume::new(device_id, fingerprint, name, mount_copy);
    volume.mount_type = mount_type;
    volume.volume_type = volume_type;
    volume.disk_type = DiskType::Unknown;
    volume.file_system = file_system;
    volume.total_capacity = info.size;
    volume.available_space = if info.size_remaining <= info.size {
        info.size_remaining
    } else {
        info.size
    };
    volume.is_read_only = false;
    volume.hardware_id = info.volume_guid;
    assert(string_views(volume.mount_points@) =~= Seq::<Seq<char>>::empty());
    Ok(volume)
}

/// A previously seen external drive keeps its fingerprint wherever it is
/// mounted: two removable disks carrying the same marker identifier get the
/// same fingerprint on the same device, whatever their mount points.
pub proof fn law_external_fingerprint_survives_remount(
    d1: DiskRecord,
    d2: DiskRecord,
    marker: u128,
    device_id: u128,
    platform: Platform,
)
    requires
        d1.is_removable,
        d2.is_removable,
    ensures
        volume_of_disk(d1, device_id, platform, Some(marker)).fingerprint == volume_of_disk(
            d2,
            device_id,
            platform,
            Some(marker),
        ).fingerprint,
        volume_of_disk(d1, device_id, platform, Some(marker)).fingerprint == external_fingerprint(
            marker,
            device_id,
        ),
{
}

} // verus!

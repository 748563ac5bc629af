//! Assigning a semantic volume type, a mount type and a filesystem family to
//! what detection reports.
use vstd::prelude::*;
use crate::path::{is_nested_under, nested_under, trim_trailing, trim_trailing_separators};
use crate::text::{has_prefix, starts_with, upper_of, uppercase};
use crate::types::{FileSystem, MountType, Platform, VolumeType};

verus! {

/// The signals that classification looks at.
#[derive(Debug)]
pub struct VolumeDetectionInfo {
    pub mount_point: String,
    pub file_system: FileSystem,
    pub total_bytes_capacity: u64,
    pub is_removable: Option<bool>,
    pub is_network_drive: Option<bool>,
    pub device_model: Option<String>,
}

/// The drive root `C:` in either case (after trailing separators are removed).
pub open spec fn is_c_drive_root(m: Seq<char>) -> bool {
    m.len() == 2 && m[1] == ':' && (m[0] == 'C' || m[0] == 'c')
}

pub open spec fn is_any_drive_root(m: Seq<char>) -> bool {
    m.len() == 2 && m[1] == ':' && (('A' <= m[0] <= 'Z') || ('a' <= m[0] <= 'z'))
}

/// Whether the mount path is the platform's system root.
pub open spec fn is_system_root(mount: Seq<char>, platform: Platform) -> bool {
    let m = trim_trailing(mount);
    match platform {
        Platform::Windows => is_c_drive_root(m),
        Platform::MacOs => m == seq!['/'],
        Platform::Linux => m == seq!['/'],
    }
}

/// The per-platform role of a volume that is neither network, removable,
/// virtual nor the system root.
pub open spec fn path_role(mount: Seq<char>, platform: Platform) -> VolumeType {
    let m = trim_trailing(mount);
    match platform {
        Platform::Windows => if is_any_drive_root(m) {
            VolumeType::Secondary
        } else {
            VolumeType::Unknown
        },
        Platform::MacOs => if m == "/System/Volumes/Data"@ {
            VolumeType::Primary
        } else if nested_under(m, "/Volumes"@) {
            VolumeType::Secondary
        } else {
            VolumeType::Unknown
        },
        Platform::Linux => if nested_under(m, "/home"@) {
            VolumeType::UserData
        } else if nested_under(m, "/mnt"@) || nested_under(m, "/media"@) {
            VolumeType::Secondary
        } else {
            VolumeType::Unknown
        },
    }
}

/// The volume type for the given signals: the first rule that matches wins.
pub open spec fn classification(
    mount: Seq<char>,
    total: u64,
    removable: Option<bool>,
    network: Option<bool>,
    platform: Platform,
) -> VolumeType {
    if network == Some(true) {
        VolumeType::Network
    } else if removable == Some(true) {
        VolumeType::External
    } else if total == 0 {
        VolumeType::Virtual
    } else if is_system_root(mount, platform) {
        VolumeType::System
    } else {
        path_role(mount, platform)
    }
}

fn is_ascii_letter(c: char) -> (r: bool)
    ensures
        r == (('A' <= c <= 'Z') || ('a' <= c <= 'z')),
{
    ('A' <= c && c <= 'Z') || ('a' <= c && c <= 'z')
}

fn c_drive_root(m: &str) -> (r: bool)
    ensures
        r == is_c_drive_root(m@),
{
    if m.unicode_len() != 2 || m.get_char(1) != ':' {
        return false;
    }
    let c = m.get_char(0);
    c == 'C' || c == 'c'
}

fn system_root(mount: &str, platform: Platform) -> (r: bool)
    ensures
        r == is_system_root(mount@, platform),
{
    let m = trim_trailing_separators(mount);
    proof {
        reveal_strlit("/");
    }
    match platform {
        Platform::Windows => c_drive_root(m.as_str()),
        _ => {
            let r = m.as_str().unicode_len() == 1 && m.as_str().get_char(0) == '/';
            assert(r == (m@ =~= seq!['/']));
            r
        },
    }
}

fn role_from_path(mount: &str, platform: Platform) -> (r: VolumeType)
    ensures
        r == path_role(mount@, platform),
{
    let m = trim_trailing_separators(mount);
    let ms = m.as_str();
    match platform {
        Platform::Windows => {
            if ms.unicode_len() == 2 && ms.get_char(1) == ':' && is_ascii_letter(ms.get_char(0)) {
                assert(is_any_drive_root(m@));
                VolumeType::Secondary
            } else {
                VolumeType::Unknown
            }
        },
        Platform::MacOs => {
            let data = "/System/Volumes/Data";
            proof {
                if ms@ == data@ {
                    assert(ms@.subrange(0, ms@.len() as int) =~= ms@);
                }
            }
            if starts_with(ms, data) && ms.unicode_len() == data.unicode_len() {
                assert(ms@.subrange(0, data@.len() as int) =~= ms@);
                VolumeType::Primary
            } else if is_nested_under(ms, "/Volumes") {
                VolumeType::Secondary
            } else {
                VolumeType::Unknown
            }
        },
        Platform::Linux => {
            if is_nested_under(ms, "/home") {
                VolumeType::UserData
            } else if is_nested_under(ms, "/mnt") || is_nested_under(ms, "/media") {
                VolumeType::Secondary
            } else {
                VolumeType::Unknown
            }
        },
    }
}

/// The classifier of one platform's conventions.
#[derive(Clone, Copy, Debug, PartialEq, Eq, Structural)]
pub struct VolumeClassifier {
    pub platform: Platform,
}

/// The classifier for the given platform.
pub fn get_classifier(platform: Platform) -> (r: VolumeClassifier)
    ensures
        r.platform == platform,
{
    VolumeClassifier { platform }
}

impl VolumeClassifier {
    /// The volume type of the detected volume: network, then removable, then
    /// zero capacity, then the system root, then the platform's path roles.
    pub fn classify(&self, info: &VolumeDetectionInfo) -> (r: VolumeType)
        ensures
            r == classification(
                info.mount_point@,
                info.total_bytes_capacity,
                info.is_removable,
                info.is_network_drive,
                self.platform,
            ),
    {
        if info.is_network_drive == Some(true) {
            VolumeType::Network
        } else if info.is_removable == Some(true) {
            VolumeType::External
        } else if info.total_bytes_capacity == 0 {
            VolumeType::Virtual
        } else if system_root(info.mount_point.as_str(), self.platform) {
            VolumeType::System
        } else {
            role_from_path(info.mount_point.as_str(), self.platform)
        }
    }
}

/// Classifies a local volume from what enumeration reports about it; there
/// is no separate network signal, so only the removable flag, capacity and
/// path decide.
pub fn classify_volume(
    mount_point: &str,
    file_system: FileSystem,
    name: &str,
    total_bytes: u64,
    is_removable: bool,
    platform: Platform,
) -> (r: VolumeType)
    ensures
        r == classification(mount_point@, total_bytes, Some(is_removable), None, platform),
{
    let classifier = get_classifier(platform);
    let info = VolumeDetectionInfo {
        mount_point: String::from_str(mount_point),
        file_system,
        total_bytes_capacity: total_bytes,
        is_removable: Some(is_removable),
        is_network_drive: None,
        device_model: None,
    };
    classifier.classify(&info)
}

/// The mount type of a Windows drive root: `C:\` and `D:\` (in any case) are
/// system drives, any other is taken as external.
pub open spec fn windows_drive_mount_type(drive: Seq<char>) -> MountType {
    if upper_of(drive) == "C:\\"@ || upper_of(drive) == "D:\\"@ {
        MountType::System
    } else {
        MountType::External
    }
}

pub fn determine_mount_type_windows(drive_letter: &str) -> (r: MountType)
    ensures
        r == windows_drive_mount_type(drive_letter@),
{
    let u = uppercase(drive_letter);
    let c = String::from_str("C:\\");
    let d = String::from_str("D:\\");
    if u.eq(&c) || u.eq(&d) {
        MountType::System
    } else {
        MountType::External
    }
}

/// The mount type of an enumerated disk: removable disks are external, the
/// drive whose upper-cased path starts with `C:` is the system's, any other is the user's.
pub open spec fn disk_mount_type(mount: Seq<char>, removable: bool) -> MountType {
    if removable {
        MountType::External
    } else if has_prefix(upper_of(mount), "C:"@) {
        MountType::System
    } else {
        MountType::User
    }
}

pub fn determine_disk_mount_type(mount_point: &str, is_removable: bool) -> (r: MountType)
    ensures
        r == disk_mount_type(mount_point@, is_removable),
{
    if is_removable {
        MountType::External
    } else {
        let u = uppercase(mount_point);
        if starts_with(u.as_str(), "C:") {
            MountType::System
        } else {
            MountType::User
        }
    }
}

/// The filesystem family named by an upper-cased filesystem name.
pub open spec fn filesystem_of_upper(u: Seq<char>) -> FileSystem {
    if u == "NTFS"@ {
        FileSystem::NTFS
    } else if u == "FAT32"@ || u == "VFAT"@ {
        FileSystem::FAT32
    } else if u == "EXFAT"@ {
        FileSystem::ExFAT
    } else if u == "REFS"@ {
        FileSystem::ReFS
    } else if u == "APFS"@ {
        FileSystem::APFS
    } else if u == "HFS+"@ || u == "HFS"@ {
        FileSystem::HFSPlus
    } else if u == "EXT4"@ {
        FileSystem::Ext4
    } else if u == "BTRFS"@ {
        FileSystem::Btrfs
    } else if u == "ZFS"@ {
        FileSystem::ZFS
    } else {
        FileSystem::Other
    }
}

fn is_named(u: &String, lit: &str) -> (r: bool)
    ensures
        r == (u@ == lit@),
{
    let s = String::from_str(lit);
    u.eq(&s)
}

/// The filesystem family of a name as the operating system reports it, in any case.
pub fn parse_filesystem_type(name: &str) -> (r: FileSystem)
    ensures
        r == filesystem_of_upper(upper_of(name@)),
{
    let u = uppercase(name);
    if is_named(&u, "NTFS") {
        FileSystem::NTFS
    } else if is_named(&u, "FAT32") || is_named(&u, "VFAT") {
        FileSystem::FAT32
    } else if is_named(&u, "EXFAT") {
        FileSystem::ExFAT
    } else if is_named(&u, "REFS") {
        FileSystem::ReFS
    } else if is_named(&u, "APFS") {
        FileSystem::APFS
    } else if is_named(&u, "HFS+") || is_named(&u, "HFS") {
        FileSystem::HFSPlus
    } else if is_named(&u, "EXT4") {
        FileSystem::Ext4
    } else if is_named(&u, "BTRFS") {
        FileSystem::Btrfs
    } else if is_named(&u, "ZFS") {
        FileSystem::ZFS
    } else {
        FileSystem::Other
    }
}

} // verus!

//! What every filesystem handler shares: path containment, copy strategies
//! and finding the disk that holds a path.
use vstd::prelude::*;
use crate::path::{
    extended_form, is_within_mount, lemma_strip_extended_form, nested_under, strip_extended,
    trim_trailing, verbatim_prefix, verbatim_unc_prefix, within_mount,
};
use crate::text::has_prefix;
use crate::types::{DiskRecord, NtfsFeatures, Volume, VolumeView};

verus! {

/// How files are copied on a filesystem.
#[derive(Clone, Copy, Debug, PartialEq, Eq, Structural)]
pub enum CopyStrategy {
    /// Read and write the bytes.
    LocalStream,
    /// Clone blocks copy-on-write where the filesystem can.
    FastCopy,
}

/// What a filesystem-specific probe found, for enhancing a volume.
#[derive(Clone, Copy, Debug, PartialEq, Eq, Structural)]
pub enum FsProbe {
    /// The probe failed or was not made.
    Unavailable,
    /// NTFS-like volume-information flags, decoded.
    Ntfs(NtfsFeatures),
    /// Whether the volume supports block cloning.
    BlockCloning(bool),
}

/// `path` lies under the volume's primary mount point or one of its others.
pub open spec fn volume_holds(v: VolumeView, path: Seq<char>) -> bool {
    within_mount(path, v.mount_point) || exists|i: int|
        0 <= i < v.mount_points.len() && within_mount(path, #[trigger] v.mount_points[i])
}

/// Whether `path` lies under one of the volume's mount points, once a Windows
/// extended-length prefix is removed from it.
pub fn volume_contains_path(volume: &Volume, path: &str) -> (r: bool)
    ensures
        r == volume_holds(volume@, path@),
{
    if is_within_mount(path, volume.mount_point.as_str()) {
        return true;
    }
    let mut i: usize = 0;
    while i < volume.mount_points.len()
        invariant
            i <= volume.mount_points@.len(),
            !within_mount(path@, volume@.mount_point),
            forall|j: int| 0 <= j < i ==> !within_mount(path@, #[trigger] volume@.mount_points[j]),
        decreases volume.mount_points@.len() - i,
    {
        if is_within_mount(path, volume.mount_points[i].as_str()) {
            assert(volume@.mount_points[i as int] == volume.mount_points@[i as int]@);
            return true;
        }
        i = i + 1;
    }
    false
}

/// `i` is the disk whose mount point holds `path` with the most characters,
/// the earliest of those that tie.
pub open spec fn best_disk(disks: Seq<DiskRecord>, path: Seq<char>, i: int) -> bool {
    &&& 0 <= i < disks.len()
    &&& within_mount(path, disks[i].mount_point@)
    &&& forall|j: int|
        0 <= j < disks.len() && within_mount(path, #[trigger] disks[j].mount_point@) ==> disks[j].mount_point@.len()
            <= disks[i].mount_point@.len()
    &&& forall|j: int|
        0 <= j < i && within_mount(path, #[trigger] disks[j].mount_point@) ==> disks[j].mount_point@.len()
            < disks[i].mount_point@.len()
}

pub open spec fn no_disk_holds(disks: Seq<DiskRecord>, path: Seq<char>) -> bool {
    forall|j: int| 0 <= j < disks.len() ==> !within_mount(path, #[trigger] disks[j].mount_point@)
}

/// The disk whose mount point is the longest one that holds `path`.
pub fn find_disk_for_path(disks: &Vec<DiskRecord>, path: &str) -> (r: Option<usize>)
    ensures
        r is None <==> no_disk_holds(disks@, path@),
        r matches Some(i) ==> best_disk(disks@, path@, i as int),
{
    let mut best: Option<usize> = None;
    let mut best_len: usize = 0;
    let mut i: usize = 0;
    while i < disks.len()
        invariant
            i <= disks@.len(),
            best is None ==> forall|j: int|
                0 <= j < i ==> !within_mount(path@, #[trigger] disks@[j].mount_point@),
            best matches Some(b) ==> {
                &&& b < i
                &&& within_mount(path@, disks@[b as int].mount_point@)
                &&& best_len == disks@[b as int].mount_point@.len()
                &&& forall|j: int|
                    0 <= j < i && within_mount(path@, #[trigger] disks@[j].mount_point@)
                        ==> disks@[j].mount_point@.len() <= best_len
                &&& forall|j: int|
                    0 <= j < b && within_mount(path@, #[trigger] disks@[j].mount_point@)
                        ==> disks@[j].mount_point@.len() < best_len
            },
        decreases disks@.len() - i,
    {
        let m = disks[i].mount_point.as_str();
        if is_within_mount(path, m) {
            let len = m.unicode_len();
            if best.is_none() || len > best_len {
                best = Some(i);
                best_len = len;
            }
        }
        i = i + 1;
    }
    best
}

/// A path equal to, or nested under, any mount point of a volume lies on the
/// volume, and so does its extended-length form (`\\?\C:\...` or
/// `\\?\UNC\server\...`), which the mount point itself does not carry.
pub proof fn law_contains_mounted_paths(v: VolumeView, mount: Seq<char>, path: Seq<char>)
    requires
        mount == v.mount_point || v.mount_points.contains(mount),
        nested_under(trim_trailing(path), trim_trailing(mount)),
        !has_prefix(path, verbatim_prefix()),
        !has_prefix(path, seq!['U', 'N', 'C', '\\']),
    ensures
        volume_holds(v, path),
        volume_holds(v, extended_form(path)),
{
    if has_prefix(path, verbatim_unc_prefix()) {
        assert(path.subrange(0, 4) =~= verbatim_unc_prefix().subrange(0, 4));
        assert(verbatim_unc_prefix().subrange(0, 4) =~= verbatim_prefix());
    }
    assert(strip_extended(path) == path);
    lemma_strip_extended_form(path);
    if mount != v.mount_point {
        let i = choose|i: int| 0 <= i < v.mount_points.len() && v.mount_points[i] == mount;
        assert(within_mount(path, v.mount_points[i]));
        assert(within_mount(extended_form(path), v.mount_points[i]));
    }
}

} // verus!

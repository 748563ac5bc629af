//! ReFS: volume identity and block cloning, with a per-handler cache of
//! clone-capability probes.
use vstd::prelude::*;
use crate::fs::common::{
    best_disk, find_disk_for_path, no_disk_holds, volume_contains_path, volume_holds, CopyStrategy,
    FsProbe,
};
use crate::fs::ntfs::{first_char, first_character, media_type_name, media_type_of};
use crate::types::{DiskRecord, FilesystemMetadata, Volume, VolumeError};

verus! {

/// What is known of the ReFS-like volume that holds a path.
#[derive(Debug)]
pub struct RefsVolumeInfo {
    pub volume_guid: String,
    pub file_system: String,
    pub drive_letter: Option<char>,
    pub label: Option<String>,
    pub size_bytes: u64,
    pub available_bytes: u64,
    pub disk_number: Option<u32>,
    pub partition_number: Option<u32>,
    pub media_type: Option<String>,
    pub supports_block_cloning: bool,
}

/// The volume information of a disk; its mount point stands in for the
/// volume GUID, and block cloning is taken as supported on ReFS.
pub open spec fn refs_info_matches(info: RefsVolumeInfo, d: DiskRecord) -> bool {
    &&& info.volume_guid@ == d.mount_point@
    &&& info.file_system@ == d.file_system@
    &&& info.drive_letter == first_char(d.mount_point@)
    &&& info.label matches Some(l) && l@ == d.name@
    &&& info.size_bytes == d.total_space
    &&& info.available_bytes == d.available_space
    &&& info.disk_number is None
    &&& info.partition_number is None
    &&& info.media_type matches Some(m) && m@ == media_type_of(d.is_removable)
    &&& info.supports_block_cloning == (d.file_system@ == "ReFS"@)
}

fn is_refs_name(s: &String) -> (r: bool)
    ensures
        r == (s@ == "ReFS"@),
{
    let n = String::from_str("ReFS");
    s.eq(&n)
}

pub fn refs_info_from_disk(d: &DiskRecord) -> (r: RefsVolumeInfo)
    ensures
        refs_info_matches(r, *d),
{
    RefsVolumeInfo {
        volume_guid: d.mount_point.clone(),
        file_system: d.file_system.clone(),
        drive_letter: first_character(d.mount_point.as_str()),
        label: Some(d.name.clone()),
        size_bytes: d.total_space,
        available_bytes: d.available_space,
        disk_number: None,
        partition_number: None,
        media_type: Some(media_type_name(d.is_removable)),
        supports_block_cloning: is_refs_name(&d.file_system),
    }
}

/// The ReFS on-disk version that a volume-data query reports.
#[derive(Clone, Copy, Debug, PartialEq, Eq, Structural)]
pub struct RefsVersion {
    pub major: u32,
    pub minor: u32,
}

/// ReFS supports block cloning from major version 2 on.
pub open spec fn version_clones(v: RefsVersion) -> bool {
    v.major >= 2
}

/// One remembered probe result.
#[derive(Debug)]
pub struct CloneProbeEntry {
    pub path: String,
    pub supported: bool,
}

/// The probe results in a list of entries; a later entry for a path wins.
pub open spec fn entries_map(s: Seq<CloneProbeEntry>) -> Map<Seq<char>, bool>
    decreases s.len(),
{
    if s.len() == 0 {
        Map::empty()
    } else {
        entries_map(s.drop_last()).insert(s.last().path@, s.last().supported)
    }
}

proof fn lemma_entries_map_skip(s: Seq<CloneProbeEntry>, i: int, k: Seq<char>)
    requires
        0 <= i <= s.len(),
        forall|j: int| i <= j < s.len() ==> (#[trigger] s[j]).path@ != k,
    ensures
        entries_map(s).contains_key(k) == entries_map(s.subrange(0, i)).contains_key(k),
        entries_map(s).contains_key(k) ==> entries_map(s)[k] == entries_map(s.subrange(0, i))[k],
    decreases s.len() - i,
{
    if i < s.len() {
        lemma_entries_map_skip(s.drop_last(), i, k);
        assert(s.drop_last().subrange(0, i) =~= s.subrange(0, i));
    } else {
        assert(s.subrange(0, i) =~= s);
    }
}

/// The remembered clone-capability probes, by path. Whether a path's volume
/// can clone does not change during a session, so a probe is made once.
#[derive(Debug)]
pub struct CloneCapabilityCache {
    pub entries: Vec<CloneProbeEntry>,
}

impl View for CloneCapabilityCache {
    type V = Map<Seq<char>, bool>;

    open spec fn view(&self) -> Map<Seq<char>, bool> {
        entries_map(self.entries@)
    }
}

impl CloneCapabilityCache {
    pub fn new() -> (r: Self)
        ensures
            r@ == Map::<Seq<char>, bool>::empty(),
    {
        CloneCapabilityCache { entries: Vec::new() }
    }

    /// The remembered result for `path`, if there is one.
    pub fn get(&self, path: &str) -> (r: Option<bool>)
        ensures
            r is Some <==> self@.contains_key(path@),
            r matches Some(b) ==> b == self@[path@],
    {
        let mut i = self.entries.len();
        while i > 0
            invariant
                i <= self.entries@.len(),
                forall|j: int| i <= j < self.entries@.len() ==> (#[trigger] self.entries@[j]).path@ != path@,
            decreases i,
        {
            let e = &self.entries[i - 1];
            let p = String::from_str(path);
            if e.path.eq(&p) {
                proof {
                    let s = self.entries@;
                    lemma_entries_map_skip(s, i as int, path@);
                    assert(s.subrange(0, i as int).drop_last() =~= s.subrange(0, i - 1));
                    assert(s.subrange(0, i as int).last() == s[i - 1]);
                }
                return Some(e.supported);
            }
            i = i - 1;
        }
        proof {
            lemma_entries_map_skip(self.entries@, 0, path@);
            assert(self.entries@.subrange(0, 0) =~= Seq::<CloneProbeEntry>::empty());
        }
        None
    }

    /// Remembers the result for `path`.
    pub fn insert(&mut self, path: &str, supported: bool)
        ensures
            final(self)@ == old(self)@.insert(path@, supported),
    {
        self.entries.push(CloneProbeEntry { path: String::from_str(path), supported });
        proof {
            assert(self.entries@.drop_last() =~= old(self).entries@);
        }
    }
}

/// Handles ReFS volumes, with its own cache of clone-capability probes.
#[derive(Debug)]
pub struct RefsHandler {
    pub cache: CloneCapabilityCache,
}

impl RefsHandler {
    pub fn new() -> (r: Self)
        ensures
            r.cache@ == Map::<Seq<char>, bool>::empty(),
    {
        RefsHandler { cache: CloneCapabilityCache::new() }
    }

    /// The information of the volume that holds `path`, among the enumerated disks.
    pub fn get_volume_info(&self, disks: &Vec<DiskRecord>, path: &str) -> (r: Result<
        RefsVolumeInfo,
        VolumeError,
    >)
        ensures
            r is Err <==> no_disk_holds(disks@, path@),
            r matches Err(e) ==> e matches VolumeError::NotFound(p) && p@ == path@,
            r matches Ok(info) ==> exists|i: int|
                best_disk(disks@, path@, i) && refs_info_matches(info, #[trigger] disks@[i]),
    {
        match find_disk_for_path(disks, path) {
            Some(i) => Ok(refs_info_from_disk(&disks[i])),
            None => Err(VolumeError::NotFound(String::from_str(path))),
        }
    }

    /// Two paths share storage for cloning when both lie on the same known
    /// volume and both volumes support block cloning.
    pub fn same_physical_storage(&self, disks: &Vec<DiskRecord>, path1: &str, path2: &str) -> (r: bool)
        ensures
            r <==> exists|i: int, j: int|
                best_disk(disks@, path1@, i) && best_disk(disks@, path2@, j) && (#[trigger] disks@[i]).mount_point@
                    == (#[trigger] disks@[j]).mount_point@ && disks@[i].file_system@ == "ReFS"@
                    && disks@[j].file_system@ == "ReFS"@,
    {
        let v1 = self.get_volume_info(disks, path1);
        let v2 = self.get_volume_info(disks, path2);
        match (v1, v2) {
            (Ok(a), Ok(b)) => a.volume_guid.eq(&b.volume_guid) && a.supports_block_cloning
                && b.supports_block_cloning,
            _ => false,
        }
    }

    /// The remembered clone capability of `path`, if it was probed before.
    pub fn cached_block_cloning(&self, path: &str) -> (r: Option<bool>)
        ensures
            r is Some <==> self.cache@.contains_key(path@),
            r matches Some(b) ==> b == self.cache@[path@],
    {
        self.cache.get(path)
    }

    /// Whether `path` supports block cloning, given what a probe of its volume
    /// found: a successful probe is remembered; a failed one answers `false`
    /// and is not remembered.
    pub fn supports_block_cloning(&mut self, path: &str, probe: Option<RefsVersion>) -> (r: bool)
        ensures
            probe matches Some(v) ==> r == version_clones(v) && final(self).cache@ == old(
                self,
            ).cache@.insert(path@, version_clones(v)),
            probe is None ==> !r && final(self).cache@ == old(self).cache@,
    {
        match probe {
            Some(v) => {
                let supported = v.major >= 2;
                self.cache.insert(path, supported);
                supported
            },
            None => false,
        }
    }

    /// The ReFS volumes among the enumerated disks, in enumeration order.
    pub fn get_all_refs_volumes(&self, disks: &Vec<DiskRecord>) -> (r: Result<Vec<RefsVolumeInfo>, VolumeError>)
        ensures
            r matches Ok(v) && v@.len() == refs_disks(disks@).len() && forall|k: int|
                0 <= k < v@.len() ==> refs_volume_entry(#[trigger] v@[k], refs_disks(disks@)[k]),
    {
        let mut out: Vec<RefsVolumeInfo> = Vec::new();
        let mut i: usize = 0;
        while i < disks.len()
            invariant
                i <= disks@.len(),
                out@.len() == refs_disks(disks@.subrange(0, i as int)).len(),
                forall|k: int|
                    0 <= k < out@.len() ==> refs_volume_entry(
                        #[trigger] out@[k],
                        refs_disks(disks@.subrange(0, i as int))[k],
                    ),
            decreases disks@.len() - i,
        {
            let d = &disks[i];
            assert(disks@.subrange(0, i + 1).drop_last() =~= disks@.subrange(0, i as int));
            if is_refs_name(&d.file_system) {
                let mut info = refs_info_from_disk(d);
                info.supports_block_cloning = true;
                out.push(info);
            }
            i = i + 1;
        }
        assert(disks@.subrange(0, disks@.len() as int) =~= disks@);
        Ok(out)
    }

    /// Records the volume's clone capability in its metadata; a failed probe
    /// leaves the volume as it was. Never fails.
    pub fn enhance_volume(&self, volume: &mut Volume, probe: FsProbe) -> (r: Result<(), VolumeError>)
        ensures
            r is Ok,
            probe matches FsProbe::BlockCloning(b) ==> final(volume)@ == (crate::types::VolumeView {
                filesystem_metadata: Some(FilesystemMetadata::Refs { supports_block_cloning: b }),
                ..old(volume)@
            }),
            !(probe is BlockCloning) ==> final(volume)@ == old(volume)@,
    {
        match probe {
            FsProbe::BlockCloning(b) => {
                volume.filesystem_metadata = Some(FilesystemMetadata::Refs { supports_block_cloning: b });
            },
            _ => {},
        }
        Ok(())
    }

    /// Block cloning: the fast copy path.
    pub fn get_copy_strategy(&self) -> (r: CopyStrategy)
        ensures
            r == CopyStrategy::FastCopy,
    {
        CopyStrategy::FastCopy
    }

    /// The strategy for a copy between two endpoints: cloning only where both
    /// support it, streaming otherwise.
    pub fn copy_strategy_between(&self, source_clones: bool, target_clones: bool) -> (r: CopyStrategy)
        ensures
            r == (if source_clones && target_clones {
                CopyStrategy::FastCopy
            } else {
                CopyStrategy::LocalStream
            }),
    {
        if source_clones && target_clones {
            CopyStrategy::FastCopy
        } else {
            CopyStrategy::LocalStream
        }
    }

    pub fn contains_path(&self, volume: &Volume, path: &str) -> (r: bool)
        ensures
            r == volume_holds(volume@, path@),
    {
        volume_contains_path(volume, path)
    }
}

/// The disks whose filesystem is named `ReFS`, in order.
pub open spec fn refs_disks(s: Seq<DiskRecord>) -> Seq<DiskRecord>
    decreases s.len(),
{
    if s.len() == 0 {
        Seq::empty()
    } else if s.last().file_system@ == "ReFS"@ {
        refs_disks(s.drop_last()).push(s.last())
    } else {
        refs_disks(s.drop_last())
    }
}

/// A listed ReFS volume: the disk's information, with block cloning taken as supported.
pub open spec fn refs_volume_entry(info: RefsVolumeInfo, d: DiskRecord) -> bool {
    &&& d.file_system@ == "ReFS"@
    &&& refs_info_matches(info, d)
    &&& info.supports_block_cloning
}

/// Enhances a volume with the clone capability that a probe found.
pub fn enhance_volume_from_windows(volume: &mut Volume, probe: FsProbe) -> (r: Result<(), VolumeError>)
    ensures
        r is Ok,
        probe matches FsProbe::BlockCloning(b) ==> final(volume)@ == (crate::types::VolumeView {
            filesystem_metadata: Some(FilesystemMetadata::Refs { supports_block_cloning: b }),
            ..old(volume)@
        }),
        !(probe is BlockCloning) ==> final(volume)@ == old(volume)@,
{
    let handler = RefsHandler::new();
    handler.enhance_volume(volume, probe)
}

} // verus!

//! Choosing the handler for a filesystem family, and calling it.
use vstd::prelude::*;
use crate::fs::common::{volume_holds, CopyStrategy, FsProbe};
use crate::fs::generic::GenericFilesystemHandler;
use crate::fs::ntfs::NtfsHandler;
use crate::fs::refs::RefsHandler;
use crate::types::{FileSystem, FilesystemMetadata, Volume, VolumeError, VolumeView};

verus! {

/// The handler of one filesystem family.
#[derive(Debug)]
pub enum FilesystemHandler {
    Generic(GenericFilesystemHandler),
    Ntfs(NtfsHandler),
    Refs(RefsHandler),
}

/// The volume after a handler of the given family enhanced it with a probe's
/// result: only a result of the family's own kind is recorded.
pub open spec fn enhanced(fs: FileSystem, v: VolumeView, probe: FsProbe) -> VolumeView {
    match (fs, probe) {
        (FileSystem::NTFS, FsProbe::Ntfs(f)) => VolumeView {
            filesystem_metadata: Some(FilesystemMetadata::Ntfs(f)),
            ..v
        },
        (FileSystem::ReFS, FsProbe::BlockCloning(b)) => VolumeView {
            filesystem_metadata: Some(FilesystemMetadata::Refs { supports_block_cloning: b }),
            ..v
        },
        _ => v,
    }
}

/// The volume after the given handler enhanced it with a probe's result.
pub open spec fn enhanced_by(h: FilesystemHandler, v: VolumeView, probe: FsProbe) -> VolumeView {
    match (h, probe) {
        (FilesystemHandler::Ntfs(_), FsProbe::Ntfs(f)) => VolumeView {
            filesystem_metadata: Some(FilesystemMetadata::Ntfs(f)),
            ..v
        },
        (FilesystemHandler::Refs(_), FsProbe::BlockCloning(b)) => VolumeView {
            filesystem_metadata: Some(FilesystemMetadata::Refs { supports_block_cloning: b }),
            ..v
        },
        _ => v,
    }
}

/// The filesystem family a handler serves (the generic one standing for all others).
pub open spec fn serves(h: FilesystemHandler, fs: FileSystem) -> bool {
    match h {
        FilesystemHandler::Ntfs(_) => fs is NTFS,
        FilesystemHandler::Refs(_) => fs is ReFS,
        FilesystemHandler::Generic(_) => !(fs is NTFS) && !(fs is ReFS),
    }
}

/// The handler for a filesystem family: NTFS and ReFS have their own, every
/// other family gets the generic one.
pub fn get_filesystem_handler(fs: FileSystem) -> (r: FilesystemHandler)
    ensures
        serves(r, fs),
        r matches FilesystemHandler::Refs(h) ==> h.cache@ == Map::<Seq<char>, bool>::empty(),
{
    match fs {
        FileSystem::NTFS => FilesystemHandler::Ntfs(NtfsHandler::new()),
        FileSystem::ReFS => FilesystemHandler::Refs(RefsHandler::new()),
        _ => FilesystemHandler::Generic(GenericFilesystemHandler::new()),
    }
}

impl FilesystemHandler {
    /// Enhances the volume with what the probe found. Enhancement is additive
    /// and best-effort: it never fails, and a failed probe changes nothing.
    pub fn enhance_volume(&self, volume: &mut Volume, probe: FsProbe) -> (r: Result<(), VolumeError>)
        ensures
            r is Ok,
            final(volume)@ == enhanced_by(*self, old(volume)@, probe),
    {
        match self {
            FilesystemHandler::Generic(h) => h.enhance_volume(volume, probe),
            FilesystemHandler::Ntfs(h) => h.enhance_volume(volume, probe),
            FilesystemHandler::Refs(h) => h.enhance_volume(volume, probe),
        }
    }

    /// The copy strategy of the family: block cloning on ReFS, streaming elsewhere.
    pub fn get_copy_strategy(&self) -> (r: CopyStrategy)
        ensures
            r == (if *self is Refs {
                CopyStrategy::FastCopy
            } else {
                CopyStrategy::LocalStream
            }),
    {
        match self {
            FilesystemHandler::Generic(h) => h.get_copy_strategy(),
            FilesystemHandler::Ntfs(h) => h.get_copy_strategy(),
            FilesystemHandler::Refs(h) => h.get_copy_strategy(),
        }
    }

    /// Whether `path` lies under one of the volume's mount points.
    pub fn contains_path(&self, volume: &Volume, path: &str) -> (r: bool)
        ensures
            r == volume_holds(volume@, path@),
    {
        match self {
            FilesystemHandler::Generic(h) => h.contains_path(volume, path),
            FilesystemHandler::Ntfs(h) => h.contains_path(volume, path),
            FilesystemHandler::Refs(h) => h.contains_path(volume, path),
        }
    }
}

/// Enhancing with a failed probe leaves every volume as it was, whatever its
/// filesystem: the volume stays usable, only less enriched.
pub proof fn law_failed_probe_leaves_volume(h: FilesystemHandler, fs: FileSystem, v: VolumeView)
    ensures
        enhanced_by(h, v, FsProbe::Unavailable) == v,
        enhanced(fs, v, FsProbe::Unavailable) == v,
{
}

} // verus!

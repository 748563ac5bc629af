use sd_volume::fingerprint::VolumeFingerprint;
use sd_volume::fs::common::{find_disk_for_path, CopyStrategy, FsProbe};
use sd_volume::fs::generic::GenericFilesystemHandler;
use sd_volume::fs::handler::{get_filesystem_handler, FilesystemHandler};
use sd_volume::fs::ntfs::{NtfsHandler, FILE_NAMED_STREAMS, FILE_SUPPORTS_HARD_LINKS, FILE_SUPPORTS_REPARSE_POINTS};
use sd_volume::path::{is_within_mount, strip_extended_prefix, trim_trailing_separators};
use sd_volume::types::{DiskRecord, DiskType, FileSystem, FilesystemMetadata, NtfsFeatures, Platform, Volume, VolumeError};

fn volume(mount: &str, others: &[&str]) -> Volume {
	let fp = VolumeFingerprint::from_primary_volume(mount, 1, Platform::Windows);
	let mut v = Volume::new(1, fp, "Data".to_string(), mount.to_string());
	v.mount_points = others.iter().map(|s| s.to_string()).collect();
	v
}

fn disk(mount: &str, fs: &str) -> DiskRecord {
	DiskRecord {
		mount_point: mount.to_string(),
		name: "Disk".to_string(),
		file_system: fs.to_string(),
		total_space: 100,
		available_space: 50,
		is_removable: false,
		disk_type: DiskType::HDD,
	}
}

#[test]
fn contains_path_equal_and_nested() {
	let h = GenericFilesystemHandler::new();
	let v = volume("C:\\Data", &[]);
	assert!(h.contains_path(&v, "C:\\Data"));
	assert!(h.contains_path(&v, "C:\\Data\\"));
	assert!(h.contains_path(&v, "C:\\Data\\photos\\a.jpg"));
	assert!(!h.contains_path(&v, "C:\\DataX"));
	assert!(!h.contains_path(&v, "D:\\Data"));
}

#[test]
fn contains_path_with_extended_prefix() {
	let h = NtfsHandler::new();
	let v = volume("C:\\", &[]);
	assert!(h.contains_path(&v, "\\\\?\\C:\\Users\\me"));
	assert!(h.contains_path(&v, "C:\\Users\\me"));
	let share = volume("\\\\server\\share", &[]);
	assert!(h.contains_path(&share, "\\\\?\\UNC\\server\\share\\dir"));
	assert!(!h.contains_path(&share, "\\\\?\\UNC\\server\\other"));
}

#[test]
fn contains_path_additional_mounts() {
	let h = get_filesystem_handler(FileSystem::ReFS);
	let v = volume("E:\\", &["C:\\Mounted\\Dev", "/mnt/dev"]);
	assert!(h.contains_path(&v, "C:\\Mounted\\Dev\\src"));
	assert!(h.contains_path(&v, "/mnt/dev/x"));
	assert!(!h.contains_path(&v, "C:\\Mounted"));
}

#[test]
fn root_mount_holds_everything_beneath() {
	let v = volume("/", &[]);
	let h = GenericFilesystemHandler::new();
	assert!(h.contains_path(&v, "/"));
	assert!(h.contains_path(&v, "/usr/bin"));
	assert!(!h.contains_path(&v, "usr"));
}

#[test]
fn path_helpers() {
	assert_eq!(trim_trailing_separators("/a/b//"), "/a/b");
	assert_eq!(trim_trailing_separators("///"), "/");
	assert_eq!(trim_trailing_separators(""), "");
	assert_eq!(strip_extended_prefix("\\\\?\\C:\\x"), "C:\\x");
	assert_eq!(strip_extended_prefix("\\\\?\\UNC\\srv\\s"), "\\\\srv\\s");
	assert_eq!(strip_extended_prefix("C:\\x"), "C:\\x");
	assert!(is_within_mount("C:\\a\\b", "C:\\"));
	assert!(!is_within_mount("C:\\a", ""));
}

#[test]
fn longest_mount_wins() {
	let disks = vec![disk("C:\\", "NTFS"), disk("C:\\Mounted\\Big", "ReFS"), disk("C:\\Mounted", "NTFS")];
	assert_eq!(find_disk_for_path(&disks, "C:\\Mounted\\Big\\f"), Some(1));
	assert_eq!(find_disk_for_path(&disks, "C:\\Mounted\\Small"), Some(2));
	assert_eq!(find_disk_for_path(&disks, "C:\\Windows"), Some(0));
	assert_eq!(find_disk_for_path(&disks, "D:\\"), None);
}

#[test]
fn ntfs_volume_info_and_not_found() {
	let h = NtfsHandler::new();
	let disks = vec![disk("C:\\", "NTFS")];
	let info = h.get_volume_info(&disks, "C:\\x").unwrap();
	assert_eq!(info.volume_guid, "C:\\");
	assert_eq!(info.file_system, "NTFS");
	assert_eq!(info.drive_letter, Some('C'));
	assert_eq!(info.media_type.as_deref(), Some("Fixed"));
	match h.get_volume_info(&disks, "Q:\\x") {
		Err(VolumeError::NotFound(p)) => assert_eq!(p, "Q:\\x"),
		other => panic!("unexpected {:?}", other),
	}
}

#[test]
fn ntfs_same_storage_and_links() {
	let h = NtfsHandler::new();
	let disks = vec![disk("C:\\", "ntfs"), disk("D:\\", "FAT32")];
	assert!(h.same_physical_storage(&disks, "C:\\a", "C:\\b\\c"));
	assert!(!h.same_physical_storage(&disks, "C:\\a", "D:\\b"));
	assert!(!h.same_physical_storage(&disks, "X:\\a", "X:\\b"));
	assert!(h.supports_hardlinks(&disks, "C:\\a"));
	assert!(h.supports_junctions(&disks, "C:\\a"));
	assert!(!h.supports_hardlinks(&disks, "D:\\a"));
	assert!(!h.supports_junctions(&disks, "X:\\a"));
}

#[test]
fn ntfs_flags_decode() {
	let f = NtfsFeatures::from_flags(FILE_SUPPORTS_HARD_LINKS | FILE_SUPPORTS_REPARSE_POINTS | FILE_NAMED_STREAMS);
	assert!(f.supports_hardlinks && f.supports_junctions && f.supports_symlinks && f.supports_streams);
	assert!(!f.supports_compression && !f.supports_encryption);
	let g = NtfsFeatures::from_flags(0x10 | 0x20000);
	assert!(g.supports_compression && g.supports_encryption && !g.supports_hardlinks);
}

#[test]
fn ntfs_features_by_platform() {
	let h = NtfsHandler::new();
	assert!(matches!(h.get_ntfs_features(Platform::Windows, None), Err(VolumeError::Platform(_))));
	let f = h.get_ntfs_features(Platform::Windows, Some(0x400000)).unwrap();
	assert!(f.supports_hardlinks && !f.supports_streams);
	assert_eq!(h.get_ntfs_features(Platform::Linux, None).unwrap(), NtfsFeatures::all());
}

#[test]
fn resolve_strips_verbatim_prefix() {
	let h = NtfsHandler::new();
	assert_eq!(h.resolve_ntfs_path("a", Some("\\\\?\\C:\\real\\a")), "C:\\real\\a");
	assert_eq!(h.resolve_ntfs_path("a", Some("C:\\real\\a")), "C:\\real\\a");
	assert_eq!(h.resolve_ntfs_path("a", None), "a");
}

#[test]
fn failed_probe_still_enhances() {
	for fs in [FileSystem::NTFS, FileSystem::ReFS, FileSystem::Ext4] {
		let h = get_filesystem_handler(fs);
		let mut v = volume("C:\\", &[]);
		v.file_system = fs;
		v.total_capacity = 10;
		v.available_space = 5;
		assert!(h.enhance_volume(&mut v, FsProbe::Unavailable).is_ok());
		assert_eq!(v.filesystem_metadata, None);
		assert_eq!(v.total_capacity, 10);
		assert_eq!(v.mount_point, "C:\\");
	}
}

#[test]
fn probe_of_another_family_is_ignored() {
	let h = get_filesystem_handler(FileSystem::NTFS);
	let mut v = volume("C:\\", &[]);
	assert!(h.enhance_volume(&mut v, FsProbe::BlockCloning(true)).is_ok());
	assert_eq!(v.filesystem_metadata, None);
	let f = NtfsFeatures::from_flags(0x80);
	assert!(h.enhance_volume(&mut v, FsProbe::Ntfs(f)).is_ok());
	assert_eq!(v.filesystem_metadata, Some(FilesystemMetadata::Ntfs(f)));
}

#[test]
fn handler_selection_and_strategies() {
	assert!(matches!(get_filesystem_handler(FileSystem::NTFS), FilesystemHandler::Ntfs(_)));
	assert!(matches!(get_filesystem_handler(FileSystem::ReFS), FilesystemHandler::Refs(_)));
	assert!(matches!(get_filesystem_handler(FileSystem::APFS), FilesystemHandler::Generic(_)));
	assert_eq!(get_filesystem_handler(FileSystem::ReFS).get_copy_strategy(), CopyStrategy::FastCopy);
	assert_eq!(get_filesystem_handler(FileSystem::NTFS).get_copy_strategy(), CopyStrategy::LocalStream);
	assert_eq!(get_filesystem_handler(FileSystem::Ext4).get_copy_strategy(), CopyStrategy::LocalStream);
}

#[test]
fn generic_same_storage_by_device() {
	let h = GenericFilesystemHandler::new();
	assert!(h.same_physical_storage(Some(5), Some(5)));
	assert!(!h.same_physical_storage(Some(5), Some(6)));
	assert!(!h.same_physical_storage(None, Some(6)));
	assert!(!h.same_physical_storage(None, None));
}

#[test]
fn ntfs_enhance_helper() {
	let mut v = volume("C:\\", &[]);
	let f = NtfsFeatures::all();
	assert!(sd_volume::fs::ntfs::enhance_volume_from_windows(&mut v, FsProbe::Ntfs(f)).is_ok());
	assert_eq!(v.filesystem_metadata, Some(FilesystemMetadata::Ntfs(f)));
	let mut w = volume("E:\\", &[]);
	assert!(sd_volume::fs::refs::enhance_volume_from_windows(&mut w, FsProbe::BlockCloning(false)).is_ok());
	assert_eq!(w.filesystem_metadata, Some(FilesystemMetadata::Refs { supports_block_cloning: false }));
}

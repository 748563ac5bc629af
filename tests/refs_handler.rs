use sd_volume::fs::common::{CopyStrategy, FsProbe};
use sd_volume::fs::refs::{RefsHandler, RefsVersion, RefsVolumeInfo};
use sd_volume::types::{DiskRecord, DiskType, FilesystemMetadata};
use sd_volume::fingerprint::VolumeFingerprint;
use sd_volume::types::{Platform, Volume};

fn disk(mount: &str, fs: &str, removable: bool) -> DiskRecord {
	DiskRecord {
		mount_point: mount.to_string(),
		name: format!("disk {}", mount),
		file_system: fs.to_string(),
		total_space: 1000,
		available_space: 400,
		is_removable: removable,
		disk_type: DiskType::SSD,
	}
}

#[test]
fn test_refs_volume_info_creation() {
	let info = RefsVolumeInfo {
		volume_guid: "E:\\".to_string(),
		file_system: "ReFS".to_string(),
		drive_letter: Some('E'),
		label: Some("DevDrive".to_string()),
		size_bytes: 100_000_000_000,
		available_bytes: 50_000_000_000,
		disk_number: None,
		partition_number: None,
		media_type: Some("Fixed".to_string()),
		supports_block_cloning: true,
	};

	assert_eq!(info.file_system, "ReFS");
	assert!(info.supports_block_cloning);
	assert_eq!(info.drive_letter, Some('E'));
}

#[test]
fn test_refs_handler_creation() {
	let handler = RefsHandler::new();
	// Handler should be created without panicking
	let _ = handler;
}

#[test]
fn refs_volume_info_from_disks() {
	let handler = RefsHandler::new();
	let disks = vec![disk("C:\\", "NTFS", false), disk("E:\\", "ReFS", true)];
	let info = handler.get_volume_info(&disks, "E:\\work\\file").unwrap();
	assert_eq!(info.volume_guid, "E:\\");
	assert_eq!(info.drive_letter, Some('E'));
	assert_eq!(info.label.as_deref(), Some("disk E:\\"));
	assert_eq!(info.media_type.as_deref(), Some("Removable"));
	assert!(info.supports_block_cloning);
	assert_eq!(info.size_bytes, 1000);
	assert_eq!(info.available_bytes, 400);
	assert!(handler.get_volume_info(&disks, "F:\\x").is_err());
}

#[test]
fn refs_same_storage_needs_cloning_on_both() {
	let handler = RefsHandler::new();
	let disks = vec![disk("C:\\", "NTFS", false), disk("E:\\", "ReFS", false)];
	assert!(handler.same_physical_storage(&disks, "E:\\a", "E:\\b"));
	assert!(!handler.same_physical_storage(&disks, "C:\\a", "C:\\b"));
	assert!(!handler.same_physical_storage(&disks, "C:\\a", "E:\\b"));
	assert!(!handler.same_physical_storage(&disks, "Z:\\a", "Z:\\b"));
}

#[test]
fn clone_probe_is_cached_only_on_success() {
	let mut handler = RefsHandler::new();
	assert_eq!(handler.cached_block_cloning("E:\\"), None);
	assert!(!handler.supports_block_cloning("E:\\", None));
	assert_eq!(handler.cached_block_cloning("E:\\"), None);
	assert!(handler.supports_block_cloning("E:\\", Some(RefsVersion { major: 3, minor: 14 })));
	assert_eq!(handler.cached_block_cloning("E:\\"), Some(true));
	assert!(!handler.supports_block_cloning("F:\\", Some(RefsVersion { major: 1, minor: 2 })));
	assert_eq!(handler.cached_block_cloning("F:\\"), Some(false));
	assert_eq!(handler.cached_block_cloning("E:\\"), Some(true));
}

#[test]
fn refs_volumes_are_listed_in_order() {
	let handler = RefsHandler::new();
	let disks = vec![
		disk("D:\\", "ReFS", false),
		disk("C:\\", "NTFS", false),
		disk("F:\\", "ReFS", true),
		disk("G:\\", "refs", false),
	];
	let list = handler.get_all_refs_volumes(&disks).unwrap();
	assert_eq!(list.len(), 2);
	assert_eq!(list[0].volume_guid, "D:\\");
	assert_eq!(list[1].volume_guid, "F:\\");
	assert!(list.iter().all(|v| v.supports_block_cloning));
}

#[test]
fn refs_copy_strategies() {
	let handler = RefsHandler::new();
	assert_eq!(handler.get_copy_strategy(), CopyStrategy::FastCopy);
	assert_eq!(handler.copy_strategy_between(true, true), CopyStrategy::FastCopy);
	assert_eq!(handler.copy_strategy_between(true, false), CopyStrategy::LocalStream);
	assert_eq!(handler.copy_strategy_between(false, true), CopyStrategy::LocalStream);
}

#[test]
fn refs_enhancement_records_cloning() {
	let handler = RefsHandler::new();
	let fp = VolumeFingerprint::from_primary_volume("E:\\", 1, Platform::Windows);
	let mut v = Volume::new(1, fp, "Dev".to_string(), "E:\\".to_string());
	assert!(handler.enhance_volume(&mut v, FsProbe::BlockCloning(true)).is_ok());
	assert_eq!(v.filesystem_metadata, Some(FilesystemMetadata::Refs { supports_block_cloning: true }));
	let mut w = Volume::new(1, VolumeFingerprint::from_external_volume(1, 1), "X".to_string(), "X:\\".to_string());
	assert!(handler.enhance_volume(&mut w, FsProbe::Unavailable).is_ok());
	assert_eq!(w.filesystem_metadata, None);
}

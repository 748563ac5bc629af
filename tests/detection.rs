use sd_volume::fingerprint::VolumeFingerprint;
use sd_volume::platform::{
	create_volume_from_windows_info, detect_volumes_from_disks, needs_marker, should_include_volume,
	volume_from_disk, WindowsVolumeInfo,
};
use sd_volume::types::{DiskRecord, DiskType, FileSystem, MountType, Platform, VolumeDetectionConfig, VolumeType};

fn disk(mount: &str, name: &str, fs: &str, total: u64, avail: u64, removable: bool) -> DiskRecord {
	DiskRecord {
		mount_point: mount.to_string(),
		name: name.to_string(),
		file_system: fs.to_string(),
		total_space: total,
		available_space: avail,
		is_removable: removable,
		disk_type: DiskType::SSD,
	}
}

fn all() -> VolumeDetectionConfig {
	VolumeDetectionConfig { include_system: true, include_virtual: true }
}

#[test]
fn disks_without_mount_or_size_are_skipped() {
	assert!(volume_from_disk(&disk("", "x", "NTFS", 10, 1, false), 1, Platform::Windows, None).is_none());
	assert!(volume_from_disk(&disk("E:\\", "x", "NTFS", 0, 0, false), 1, Platform::Windows, None).is_none());
	let disks = vec![
		disk("", "x", "NTFS", 10, 1, false),
		disk("C:\\", "System", "NTFS", 100, 40, false),
		disk("E:\\", "x", "NTFS", 0, 0, false),
	];
	let v = detect_volumes_from_disks(1, &disks, &vec![], Platform::Windows, &all());
	assert_eq!(v.len(), 1);
	assert_eq!(v[0].mount_point, "C:\\");
}

#[test]
fn system_disk_is_fully_populated() {
	let v = volume_from_disk(&disk("C:\\", "", "ntfs", 100, 40, false), 9, Platform::Windows, None).unwrap();
	assert_eq!(v.name, "Local Disk (C:)");
	assert_eq!(v.mount_type, MountType::System);
	assert_eq!(v.volume_type, VolumeType::System);
	assert_eq!(v.disk_type, DiskType::SSD);
	assert_eq!(v.file_system, FileSystem::NTFS);
	assert_eq!(v.total_capacity, 100);
	assert_eq!(v.available_space, 40);
	assert!(!v.is_tracked && !v.is_read_only);
	assert_eq!(v.device_id, 9);
	assert_eq!(v.fingerprint, VolumeFingerprint::from_primary_volume("c:\\", 9, Platform::Windows));
}

#[test]
fn short_mount_gets_plain_name() {
	let v = volume_from_disk(&disk("/", "", "ext4", 100, 40, false), 9, Platform::Linux, None).unwrap();
	assert_eq!(v.name, "Local Disk");
}

#[test]
fn available_space_never_exceeds_capacity() {
	let v = volume_from_disk(&disk("D:\\", "Data", "NTFS", 100, 400, false), 9, Platform::Windows, None).unwrap();
	assert_eq!(v.available_space, 100);
	assert_eq!(v.mount_type, MountType::User);
	assert_eq!(v.volume_type, VolumeType::Secondary);
}

#[test]
fn external_disk_uses_marker() {
	let d = disk("F:\\", "Stick", "exFAT", 64, 1, true);
	assert!(needs_marker(&d, Platform::Windows));
	assert!(!needs_marker(&disk("C:\\", "Sys", "NTFS", 64, 1, false), Platform::Windows));
	let with = volume_from_disk(&d, 2, Platform::Windows, Some(77)).unwrap();
	assert_eq!(with.fingerprint, VolumeFingerprint::from_external_volume(77, 2));
	assert_eq!(with.mount_type, MountType::External);
	let without = volume_from_disk(&d, 2, Platform::Windows, None).unwrap();
	assert_eq!(without.fingerprint, VolumeFingerprint::from_primary_volume("F:\\", 2, Platform::Windows));
}

#[test]
fn external_drive_under_new_letter_keeps_fingerprint() {
	let marker = uuid::Uuid::new_v4().as_u128();
	let device = uuid::Uuid::new_v4().as_u128();
	let first = volume_from_disk(&disk("E:\\", "Backup", "exFAT", 500, 100, true), device, Platform::Windows, Some(marker)).unwrap();
	let again = volume_from_disk(&disk("G:\\", "Backup", "exFAT", 500, 90, true), device, Platform::Windows, Some(marker)).unwrap();
	assert_eq!(first.fingerprint, again.fingerprint);
	assert_ne!(first.mount_point, again.mount_point);
}

#[test]
fn markers_are_matched_by_position() {
	let disks = vec![disk("C:\\", "Sys", "NTFS", 100, 1, false), disk("F:\\", "Stick", "exFAT", 64, 1, true)];
	let v = detect_volumes_from_disks(3, &disks, &vec![None, Some(5)], Platform::Windows, &all());
	assert_eq!(v.len(), 2);
	assert_eq!(v[1].fingerprint, VolumeFingerprint::from_external_volume(5, 3));
}

#[test]
fn config_filters_after_classification() {
	let disks = vec![disk("C:\\", "Sys", "NTFS", 100, 1, false), disk("D:\\", "Data", "NTFS", 100, 1, false)];
	let cfg = VolumeDetectionConfig { include_system: false, include_virtual: false };
	let v = detect_volumes_from_disks(3, &disks, &vec![], Platform::Windows, &cfg);
	assert_eq!(v.len(), 1);
	assert_eq!(v[0].mount_point, "D:\\");
	assert!(should_include_volume(&v[0], &VolumeDetectionConfig { include_system: true, include_virtual: false }));
	let d = VolumeDetectionConfig::new();
	assert!(d.include_system && !d.include_virtual);
	assert_eq!(VolumeDetectionConfig::default(), d);
}

#[test]
fn two_passes_give_same_fingerprints() {
	let disks = vec![
		disk("C:\\", "Sys", "NTFS", 100, 1, false),
		disk("D:\\", "Data", "NTFS", 200, 10, false),
		disk("F:\\", "Stick", "exFAT", 64, 1, true),
	];
	let later = vec![
		disk("C:\\", "Sys", "NTFS", 100, 3, false),
		disk("D:\\", "Data", "NTFS", 200, 7, false),
		disk("F:\\", "Stick", "exFAT", 64, 2, true),
	];
	let a = detect_volumes_from_disks(4, &disks, &vec![None, None, Some(11)], Platform::Windows, &all());
	let b = detect_volumes_from_disks(4, &later, &vec![None, None, Some(11)], Platform::Windows, &all());
	assert_eq!(a.len(), b.len());
	for (x, y) in a.iter().zip(b.iter()) {
		assert_eq!(x.fingerprint, y.fingerprint);
	}
}

#[test]
fn windows_info_without_label() {
	let info = WindowsVolumeInfo {
		drive_letter: Some("E".to_string()),
		label: None,
		size: 500,
		size_remaining: 200,
		filesystem: "NTFS".to_string(),
		volume_guid: Some("\\\\?\\Volume{1234}\\".to_string()),
	};
	let v = create_volume_from_windows_info(info, 6).unwrap();
	assert_eq!(v.mount_point, "E:\\");
	assert_eq!(v.name, "Local Disk (E:)");
	assert_eq!(v.mount_type, MountType::External);
	assert_eq!(v.volume_type, VolumeType::Secondary);
	assert_eq!(v.disk_type, DiskType::Unknown);
	assert_eq!(v.file_system, FileSystem::NTFS);
	assert_eq!(v.hardware_id.as_deref(), Some("\\\\?\\Volume{1234}\\"));
	assert_eq!(v.fingerprint, VolumeFingerprint::from_primary_volume("e:\\", 6, Platform::Windows));
}

#[test]
fn windows_info_without_letter() {
	let info = WindowsVolumeInfo {
		drive_letter: None,
		label: Some("Recovery".to_string()),
		size: 0,
		size_remaining: 0,
		filesystem: "ntfs".to_string(),
		volume_guid: None,
	};
	let v = create_volume_from_windows_info(info, 6).unwrap();
	assert_eq!(v.mount_point, "C:\\");
	assert_eq!(v.name, "Recovery");
	assert_eq!(v.mount_type, MountType::System);
	assert_eq!(v.volume_type, VolumeType::Virtual);
	let none = WindowsVolumeInfo {
		drive_letter: None,
		label: None,
		size: 5,
		size_remaining: 9,
		filesystem: "x".to_string(),
		volume_guid: None,
	};
	let w = create_volume_from_windows_info(none, 6).unwrap();
	assert_eq!(w.name, "Unknown Drive");
	assert_eq!(w.available_space, 5);
	assert_eq!(w.file_system, FileSystem::Other);
}

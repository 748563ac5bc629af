use sd_volume::action::{ActionError, VolumeUntrackAction, VolumeUntrackInput};
use sd_volume::fingerprint::VolumeFingerprint;
use sd_volume::fs::common::FsProbe;
use sd_volume::manager::{VolumeEvent, VolumeManager};
use sd_volume::platform::detect_volumes_from_disks;
use sd_volume::types::{DiskRecord, DiskType, FilesystemMetadata, NtfsFeatures, Platform, Volume, VolumeDetectionConfig, VolumeError};

fn disk(mount: &str, fs: &str, avail: u64) -> DiskRecord {
	DiskRecord {
		mount_point: mount.to_string(),
		name: "Disk".to_string(),
		file_system: fs.to_string(),
		total_space: 1000,
		available_space: avail,
		is_removable: false,
		disk_type: DiskType::SSD,
	}
}

fn detect(disks: Vec<DiskRecord>) -> Vec<Volume> {
	let cfg = VolumeDetectionConfig { include_system: true, include_virtual: true };
	detect_volumes_from_disks(1, &disks, &vec![], Platform::Windows, &cfg)
}

fn fp(mount: &str) -> VolumeFingerprint {
	VolumeFingerprint::from_primary_volume(mount, 1, Platform::Windows)
}

#[test]
fn first_refresh_adds_everything() {
	let mut m = VolumeManager::new(1);
	let ev = m.refresh(detect(vec![disk("C:\\", "NTFS", 1), disk("D:\\", "ext4", 1)]), &vec![]);
	assert_eq!(ev.len(), 2);
	assert!(ev.iter().all(|e| matches!(e, VolumeEvent::VolumeAdded(_))));
	assert_eq!(m.get_all_volumes().len(), 2);
}

#[test]
fn unchanged_machine_refresh_is_quiet() {
	let mut m = VolumeManager::new(1);
	m.refresh(detect(vec![disk("C:\\", "NTFS", 1), disk("D:\\", "ext4", 1)]), &vec![]);
	let before: Vec<VolumeFingerprint> = m.get_all_volumes().iter().map(|v| v.fingerprint.duplicate()).collect();
	let ev = m.refresh(detect(vec![disk("C:\\", "NTFS", 1), disk("D:\\", "ext4", 1)]), &vec![]);
	assert_eq!(ev.len(), 0);
	let after: Vec<VolumeFingerprint> = m.get_all_volumes().iter().map(|v| v.fingerprint.duplicate()).collect();
	assert_eq!(before, after);
}

#[test]
fn refresh_reports_changes_and_removals() {
	let mut m = VolumeManager::new(1);
	m.refresh(detect(vec![disk("C:\\", "NTFS", 1), disk("D:\\", "ext4", 1)]), &vec![]);
	let ev = m.refresh(detect(vec![disk("C:\\", "NTFS", 5), disk("E:\\", "ext4", 1)]), &vec![]);
	assert_eq!(ev.len(), 3);
	assert!(ev.iter().any(|e| matches!(e, VolumeEvent::VolumeChanged(f) if *f == fp("C:\\"))));
	assert!(ev.iter().any(|e| matches!(e, VolumeEvent::VolumeAdded(f) if *f == fp("E:\\"))));
	assert!(ev.iter().any(|e| matches!(e, VolumeEvent::VolumeRemoved(f) if *f == fp("D:\\"))));
	assert!(m.get_volume(&fp("D:\\")).is_none());
	assert_eq!(m.get_volume(&fp("C:\\")).unwrap().available_space, 5);
}

#[test]
fn refresh_applies_enhancement() {
	let mut m = VolumeManager::new(1);
	let f = NtfsFeatures::from_flags(0x400000);
	m.refresh(detect(vec![disk("C:\\", "NTFS", 1), disk("E:\\", "ReFS", 1)]), &vec![FsProbe::Ntfs(f), FsProbe::Unavailable]);
	assert_eq!(m.get_volume(&fp("C:\\")).unwrap().filesystem_metadata, Some(FilesystemMetadata::Ntfs(f)));
	assert_eq!(m.get_volume(&fp("E:\\")).unwrap().filesystem_metadata, None);
}

#[test]
fn duplicate_detections_keep_the_first() {
	let mut m = VolumeManager::new(1);
	let ev = m.refresh(detect(vec![disk("C:\\", "NTFS", 1), disk("c:", "NTFS", 2)]), &vec![]);
	assert_eq!(ev.len(), 1);
	assert_eq!(m.get_all_volumes().len(), 1);
	assert_eq!(m.get_all_volumes()[0].available_space, 1);
}

#[test]
fn track_then_untrack() {
	let mut m = VolumeManager::new(1);
	m.refresh(detect(vec![disk("C:\\", "NTFS", 1)]), &vec![]);
	let ev = m.track_volume(&fp("C:\\"), 42, Ok(())).unwrap();
	assert!(matches!(ev.as_slice(), [VolumeEvent::ResourceAdded(_)]));
	let v = m.get_volume(&fp("C:\\")).unwrap();
	assert!(v.is_tracked);
	assert_eq!(v.library_id, Some(42));

	// tracking survives a detection pass
	let ev = m.refresh(detect(vec![disk("C:\\", "NTFS", 1)]), &vec![]);
	assert_eq!(ev.len(), 0);
	assert!(m.get_volume(&fp("C:\\")).unwrap().is_tracked);

	let ev = m.untrack_volume_by_id(&fp("C:\\"), Ok(())).unwrap();
	assert_eq!(ev.len(), 2);
	assert!(matches!(&ev[0], VolumeEvent::VolumeRemoved(f) if *f == fp("C:\\")));
	assert!(matches!(&ev[1], VolumeEvent::ResourceChanged(f) if *f == fp("C:\\")));
	let v = m.get_volume(&fp("C:\\")).unwrap();
	assert!(!v.is_tracked);
	assert_eq!(v.library_id, None);
	assert_eq!(m.get_all_volumes().len(), 1);
}

#[test]
fn failed_store_leaves_cache() {
	let mut m = VolumeManager::new(1);
	m.refresh(detect(vec![disk("C:\\", "NTFS", 1)]), &vec![]);
	m.track_volume(&fp("C:\\"), 42, Ok(())).unwrap();
	match m.untrack_volume_by_id(&fp("C:\\"), Err("locked".to_string())) {
		Err(VolumeError::Database(msg)) => assert_eq!(msg, "locked"),
		other => panic!("unexpected {:?}", other),
	}
	assert!(m.get_volume(&fp("C:\\")).unwrap().is_tracked);
	assert!(matches!(m.track_volume(&fp("C:\\"), 1, Err("x".to_string())), Err(VolumeError::Database(_))));
	assert!(matches!(m.untrack_volume_by_id(&fp("Z:\\"), Ok(())), Err(VolumeError::NotFound(_))));
	assert!(matches!(m.track_volume(&fp("Z:\\"), 1, Ok(())), Err(VolumeError::NotFound(_))));
}

#[test]
fn untrack_action_reports_success() {
	let mut m = VolumeManager::new(1);
	m.refresh(detect(vec![disk("C:\\", "NTFS", 1)]), &vec![]);
	m.track_volume(&fp("C:\\"), 42, Ok(())).unwrap();
	let action = VolumeUntrackAction::from_input(VolumeUntrackInput { volume_id: fp("C:\\") }).unwrap();
	assert_eq!(action.action_kind(), "volumes.untrack");
	let (out, ev) = action.execute(&mut m, Ok(())).unwrap();
	assert!(out.success);
	assert_eq!(out.volume_id, fp("C:\\"));
	assert!(ev.iter().all(|e| !matches!(e, VolumeEvent::VolumeAdded(_) | VolumeEvent::ResourceAdded(_))));
	assert!(!m.get_volume(&fp("C:\\")).unwrap().is_tracked);
}

#[test]
fn untrack_action_maps_errors() {
	let mut m = VolumeManager::new(1);
	m.refresh(detect(vec![disk("C:\\", "NTFS", 1)]), &vec![]);
	let action = VolumeUntrackAction::new(VolumeUntrackInput { volume_id: fp("C:\\") });
	match action.execute(&mut m, Err("disk full".to_string())) {
		Err(ActionError::Internal(msg)) => assert_eq!(msg, "Database error: disk full"),
		other => panic!("unexpected {:?}", other),
	}
	let missing = VolumeUntrackAction::new(VolumeUntrackInput { volume_id: fp("Q:\\") });
	match missing.execute(&mut m, Ok(())) {
		Err(ActionError::Internal(msg)) => assert!(msg.starts_with("Volume not found: q:")),
		other => panic!("unexpected {:?}", other),
	}
}

#[test]
fn error_messages() {
	assert_eq!(VolumeError::NotFound("x".to_string()).message(), "Volume not found: x");
	assert_eq!(VolumeError::Platform("p".to_string()).message(), "Platform error: p");
	assert_eq!(VolumeError::TaskJoin("j".to_string()).message(), "Task join error: j");
	assert_eq!(VolumeError::Internal("i".to_string()).message(), "Internal error: i");
}

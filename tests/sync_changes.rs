use sd_volume::sync::{decide_shared_change, ChangeData, ChangeRejected, ChangeType, Field, MimeTypeWrite};

fn data(is_object: bool, uuid: Field<u128>, mime_type: Field<String>) -> ChangeData {
	ChangeData { is_object, uuid, mime_type }
}

#[test]
fn delete_needs_no_data() {
	let r = decide_shared_change(ChangeType::Delete, 9, data(false, Field::Missing, Field::Missing));
	assert!(matches!(r, Ok(MimeTypeWrite::Delete { uuid: 9 })));
}

#[test]
fn insert_and_update_upsert() {
	for kind in [ChangeType::Insert, ChangeType::Update] {
		let r = decide_shared_change(kind, 9, data(true, Field::Present(5), Field::Present("text/plain".to_string())));
		match r {
			Ok(MimeTypeWrite::Upsert { uuid, mime_type }) => {
				assert_eq!(uuid, 5);
				assert_eq!(mime_type, "text/plain");
			}
			other => panic!("unexpected {:?}", other),
		}
	}
}

#[test]
fn refusals_in_order() {
	let not_object = decide_shared_change(ChangeType::Insert, 1, data(false, Field::Present(1), Field::Present("a".to_string())));
	assert_eq!(not_object.unwrap_err().message(), "MimeType data is not an object");
	let missing = decide_shared_change(ChangeType::Insert, 1, data(true, Field::Missing, Field::Missing));
	assert_eq!(missing.unwrap_err().message(), "Missing uuid");
	let invalid = decide_shared_change(ChangeType::Update, 1, data(true, Field::Invalid("bad".to_string()), Field::Missing));
	assert_eq!(invalid.unwrap_err().message(), "Invalid uuid: bad");
	let no_mime = decide_shared_change(ChangeType::Insert, 1, data(true, Field::Present(2), Field::Missing));
	assert!(matches!(no_mime, Err(ChangeRejected::MissingMimeType)));
	let bad_mime = decide_shared_change(ChangeType::Insert, 1, data(true, Field::Present(2), Field::Invalid("num".to_string())));
	assert_eq!(bad_mime.unwrap_err().message(), "Invalid mime_type: num");
}

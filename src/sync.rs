//! Deciding what an incoming change to a shared MIME-type record writes.
use vstd::prelude::*;

verus! {

/// The kind of a change another device sent.
#[derive(Clone, Copy, Debug, PartialEq, Eq, Structural)]
pub enum ChangeType {
    Insert,
    Update,
    Delete,
}

/// One field of a change's data, as decoding found it.
#[derive(Debug)]
pub enum Field<T> {
    Missing,
    Invalid(String),
    Present(T),
}

/// The decoded data of an incoming change.
#[derive(Debug)]
pub struct ChangeData {
    /// The data is a JSON object at all.
    pub is_object: bool,
    pub uuid: Field<u128>,
    pub mime_type: Field<String>,
}

/// What an incoming change writes: an insert that updates the MIME type on a
/// conflicting identifier, or a delete by identifier.
#[derive(Debug)]
pub enum MimeTypeWrite {
    Upsert { uuid: u128, mime_type: String },
    Delete { uuid: u128 },
}

/// Why an incoming change was refused.
#[derive(Debug)]
pub enum ChangeRejected {
    NotAnObject,
    MissingUuid,
    InvalidUuid(String),
    MissingMimeType,
    InvalidMimeType(String),
}

/// The write of a change, or why it is refused: a delete needs no data; an
/// insert or update needs an object with a valid `uuid` and then a valid
/// `mime_type`, checked in that order.
pub open spec fn change_outcome(change_type: ChangeType, record_uuid: u128, data: ChangeData) -> Result<
    MimeTypeWrite,
    ChangeRejected,
> {
    if change_type is Delete {
        Ok(MimeTypeWrite::Delete { uuid: record_uuid })
    } else if !data.is_object {
        Err(ChangeRejected::NotAnObject)
    } else {
        match data.uuid {
            Field::Missing => Err(ChangeRejected::MissingUuid),
            Field::Invalid(e) => Err(ChangeRejected::InvalidUuid(e)),
            Field::Present(u) => match data.mime_type {
                Field::Missing => Err(ChangeRejected::MissingMimeType),
                Field::Invalid(e) => Err(ChangeRejected::InvalidMimeType(e)),
                Field::Present(m) => Ok(MimeTypeWrite::Upsert { uuid: u, mime_type: m }),
            },
        }
    }
}

pub fn decide_shared_change(change_type: ChangeType, record_uuid: u128, data: ChangeData) -> (r: Result<
    MimeTypeWrite,
    ChangeRejected,
>)
    ensures
        r == change_outcome(change_type, record_uuid, data),
{
    if change_type == ChangeType::Delete {
        return Ok(MimeTypeWrite::Delete { uuid: record_uuid });
    }
    if !data.is_object {
        return Err(ChangeRejected::NotAnObject);
    }
    match data.uuid {
        Field::Missing => Err(ChangeRejected::MissingUuid),
        Field::Invalid(e) => Err(ChangeRejected::InvalidUuid(e)),
        Field::Present(u) => match data.mime_type {
            Field::Missing => Err(ChangeRejected::MissingMimeType),
            Field::Invalid(e) => Err(ChangeRejected::InvalidMimeType(e)),
            Field::Present(m) => Ok(MimeTypeWrite::Upsert { uuid: u, mime_type: m }),
        },
    }
}

/// The text of a refusal.
pub open spec fn rejection_text(e: ChangeRejected) -> Seq<char> {
    match e {
        ChangeRejected::NotAnObject => "MimeType data is not an object"@,
        ChangeRejected::MissingUuid => "Missing uuid"@,
        ChangeRejected::InvalidUuid(d) => "Invalid uuid: "@ + d@,
        ChangeRejected::MissingMimeType => "Missing mime_type"@,
        ChangeRejected::InvalidMimeType(d) => "Invalid mime_type: "@ + d@,
    }
}

impl ChangeRejected {
    pub fn message(&self) -> (r: String)
        ensures
            r@ == rejection_text(*self),
    {
        match self {
            ChangeRejected::NotAnObject => String::from_str("MimeType data is not an object"),
            ChangeRejected::MissingUuid => String::from_str("Missing uuid"),
            ChangeRejected::InvalidUuid(d) => String::from_str("Invalid uuid: ").concat(d.as_str()),
            ChangeRejected::MissingMimeType => String::from_str("Missing mime_type"),
            ChangeRejected::InvalidMimeType(d) => String::from_str("Invalid mime_type: ").concat(d.as_str()),
        }
    }
}

} // verus!

//! Older interface surface kept for callers that still use it: the plain
//! user and session records, the direct channel handoff, and the earlier
//! row-to-record decoding of blob entries.

use vstd::prelude::*;
use vstd::utf8::encode_utf8;

use crate::blob_entry::opt_text;
use crate::blob_entry::BlobEntry;
use crate::blob_entry::BlobEntryFields;
use crate::common::send_api_result;
use crate::common::ApiError;
use crate::ids::is_uuid_text;
use crate::ids::uuid_text_value;
use crate::ids::Uuid;
use crate::numbers::i64_parse_of;
use crate::numbers::parse_i64;
use crate::time::chrono_parse_fixed_of;
use crate::time::normalize_timestamp;
use crate::time::parse_str_utc;
use crate::time::Timestamp;
use crate::MarshalError;

verus! {

/// A user of the remote service.
#[derive(Debug, Clone)]
pub struct User {
    pub id: Uuid,
    pub label: String,
    pub _version: String,
    pub created_timestamp: Timestamp,
    pub last_updated_timestamp: Timestamp,
}

impl crate::GetLabel for User {
    open spec fn label_spec(&self) -> Seq<char> {
        self.label@
    }

    fn getLabel(&self) -> (r: &String) {
        &self.label
    }
}

/// A recording session of a robot.
#[derive(Debug, Clone)]
pub struct Session {
    pub id: Uuid,
    pub label: String,
    pub robot_label: String,
    pub user_label: String,
    pub _version: String,
    pub created_timestamp: Timestamp,
    pub last_updated_timestamp: Timestamp,
}

impl crate::GetLabel for Session {
    open spec fn label_spec(&self) -> Seq<char> {
        self.label@
    }

    fn getLabel(&self) -> (r: &String) {
        &self.label
    }
}

/// Push a plain value into `send_into` (the older doorway to
/// [`send_api_result`] with an already successful result).
pub fn send_api_response<T>(send_into: std::sync::mpsc::Sender<T>, data: T) -> (r: Result<
    (),
    ApiError,
>)
    ensures
        r is Ok || r matches Err(ApiError::Channel(_)),
{
    send_api_result(send_into, Ok(data))
}

/// Conversion into the common blob entry row shape, for row types of
/// other queries that carry the same columns.
pub trait SameBlobEntryFields {
    /// Reshape into the common row.
    fn to_gql_blobentry(self) -> BlobEntryFields;
}

impl SameBlobEntryFields for BlobEntryFields {
    fn to_gql_blobentry(self) -> BlobEntryFields {
        self
    }
}

impl BlobEntry {
    /// Reshape any row that carries the blob entry columns into the
    /// common row shape.
    pub fn same_gql(sgql: impl SameBlobEntryFields) -> BlobEntryFields {
        sgql.to_gql_blobentry()
    }

    /// Decode a blob entry row the older way: columns the row does not
    /// carry, and instants that do not read, keep the empty-record
    /// defaults (in particular the store falls back to empty text, not to
    /// `"default"`, and an unreadable blob instant stays at the epoch).
    pub fn from_gql2(gety: BlobEntryFields) -> (r: Result<BlobEntry, MarshalError>)
        ensures
            r is Ok <==> {
                &&& is_uuid_text(encode_utf8(gety.id@))
                &&& is_uuid_text(encode_utf8(gety.blob_id@))
                &&& (gety.size matches Some(s) ==> i64_parse_of(s@) is Some)
            },
            r matches Ok(e) ==> {
                &&& e.id matches Some(id) && (id.hi, id.lo) == uuid_text_value(
                    encode_utf8(gety.id@),
                )
                &&& (e.blob_id.hi, e.blob_id.lo) == uuid_text_value(encode_utf8(gety.blob_id@))
                &&& e.origin_id is None
                &&& e.label@ == gety.label@
                &&& e.blobstore@ == opt_text(gety.blobstore)
                &&& e.origin@ == opt_text(gety.origin)
                &&& e.mime_type@ == opt_text(gety.mime_type)
                &&& e.description@ == opt_text(gety.description)
                &&& e.hash@ == opt_text(gety.hash)
                &&& e.metadata@ == opt_text(gety.metadata)
                &&& (match gety.size {
                    Some(s) => e.size == i64_parse_of(s@),
                    None => e.size is None,
                })
                &&& e.timestamp == (match chrono_parse_fixed_of(
                    normalize_timestamp(encode_utf8(opt_text(gety.timestamp))),
                ) {
                    Some(t) => Timestamp { secs: t.0, nanos: t.1 },
                    None => Timestamp { secs: 0, nanos: 0 },
                })
                &&& e.created_timestamp == (match chrono_parse_fixed_of(
                    normalize_timestamp(encode_utf8(gety.created_timestamp@)),
                ) {
                    Some(t) => Some(Timestamp { secs: t.0, nanos: t.1 }),
                    None => None::<Timestamp>,
                })
                &&& e.last_updated_timestamp == (match chrono_parse_fixed_of(
                    normalize_timestamp(encode_utf8(gety.last_updated_timestamp@)),
                ) {
                    Some(t) => Some(Timestamp { secs: t.0, nanos: t.1 }),
                    None => None::<Timestamp>,
                })
                &&& e._type@ == opt_text(gety.type_)
                &&& e._version@ == gety.version@
            },
    {
        let id = match Uuid::parse_str(gety.id.as_str()) {
            Ok(u) => u,
            Err(e) => {
                return Err(e);
            },
        };
        let blob_id = match Uuid::parse_str(gety.blob_id.as_str()) {
            Ok(u) => u,
            Err(e) => {
                return Err(e);
            },
        };
        let size = match gety.size {
            Some(s) => {
                match parse_i64(s.as_str()) {
                    Some(n) => Some(n),
                    None => {
                        return Err(MarshalError::InvalidNumber);
                    },
                }
            },
            None => None,
        };
        let timestamp = match parse_str_utc(opt_text_owned(gety.timestamp)) {
            Ok(t) => t,
            Err(_) => Timestamp::epoch(),
        };
        let created_timestamp = match parse_str_utc(gety.created_timestamp) {
            Ok(t) => Some(t),
            Err(_) => None,
        };
        let last_updated_timestamp = match parse_str_utc(gety.last_updated_timestamp) {
            Ok(t) => Some(t),
            Err(_) => None,
        };
        Ok(
            BlobEntry {
                id: Some(id),
                blob_id,
                origin_id: None,
                label: gety.label,
                blobstore: opt_text_owned(gety.blobstore),
                hash: opt_text_owned(gety.hash),
                origin: opt_text_owned(gety.origin),
                size,
                description: opt_text_owned(gety.description),
                mime_type: opt_text_owned(gety.mime_type),
                metadata: opt_text_owned(gety.metadata),
                timestamp,
                created_timestamp,
                last_updated_timestamp,
                _type: opt_text_owned(gety.type_),
                _version: gety.version,
            },
        )
    }
}

/// The text of an optional column, or empty text when absent.
fn opt_text_owned(o: Option<String>) -> (r: String)
    ensures
        r@ == opt_text(o),
{
    match o {
        Some(s) => s,
        None => "".to_owned(),
    }
}

} // verus!

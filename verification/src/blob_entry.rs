//! The blob entry record: the small structured value that holds contextual
//! and reference information for finding an actual blob, together with its
//! construction from literal fields and from decoded query rows.

use vstd::prelude::*;
use vstd::string::StrSliceExecFns;
use vstd::string::StringExecFns;
use vstd::utf8::encode_utf8;

use crate::common::channel_try_recv;
use crate::ids::is_uuid_text;
use crate::ids::uuid_text_value;
use crate::ids::Uuid;
use crate::numbers::i64_parse_of;
use crate::numbers::parse_i64;
use crate::time::chrono_parse_fixed_of;
use crate::time::normalize_timestamp;
use crate::time::parse_str_utc;
use crate::time::Timestamp;
use crate::GetLabel;
use crate::MarshalError;
use crate::SDK_VERSION;

verus! {

/// A `BlobEntry` holds contextual and reference information to find an
/// actual blob: identifiers, a human label, provenance, and bookkeeping
/// timestamps. It is immutable once constructed; fields are read through
/// accessors at the boundary, never through layout.
#[derive(Debug, Clone)]
pub struct BlobEntry {
    /// Identifier of the entry itself, once assigned remotely.
    pub id: Option<Uuid>,
    /// Globally unique identifier of the blob the entry points at; the nil
    /// UUID when the entry is blobless.
    pub blob_id: Uuid,
    /// Locally assigned identifier of the blob, where the edge process had
    /// to choose one.
    pub origin_id: Option<Uuid>,
    /// Human-friendly label, unique per node the entry is attached to.
    pub label: String,
    /// Hint about which blob store holds the blob.
    pub blobstore: String,
    /// Content hash for consistency checking.
    pub hash: String,
    /// Context the entry was first created from.
    pub origin: String,
    /// Number of bytes in the blob.
    pub size: Option<i64>,
    /// Additional information for other users of the blob.
    pub description: String,
    /// MIME description of the blob's format.
    pub mime_type: String,
    /// Additional functional metadata, base64-encoded JSON.
    pub metadata: String,
    /// When the blob itself was first created.
    pub timestamp: Timestamp,
    /// When the entry was created.
    pub created_timestamp: Option<Timestamp>,
    /// When the entry was last updated.
    pub last_updated_timestamp: Option<Timestamp>,
    /// Self-declared type tag.
    pub _type: String,
    /// Version tag of the entry's schema.
    pub _version: String,
}

impl GetLabel for BlobEntry {
    open spec fn label_spec(&self) -> Seq<char> {
        self.label@
    }

    fn getLabel(&self) -> (r: &String) {
        &self.label
    }
}

impl BlobEntry {
    /// Construct a fresh entry with a newly drawn blob identifier, default
    /// store and origin, empty metadata (`"e30="` is base64 for `{}`), and
    /// creation bookkeeping set to the current instant.
    pub fn new() -> (r: BlobEntry)
        ensures
            r.id is None && r.origin_id is None && r.size is None,
            r.label@ == ""@ && r.hash@ == ""@ && r.description@ == ""@ && r.mime_type@ == ""@,
            r.blobstore@ == "default"@,
            r.origin@ == "NvaSDK.rs"@,
            r.metadata@ == "e30="@,
            r.timestamp.secs == 0 && r.timestamp.nanos == 0,
            r.created_timestamp is Some,
            r.last_updated_timestamp == r.created_timestamp,
            r._type@ == "BlobEntry"@,
            r._version@ == SDK_VERSION@,
    {
        let now = Timestamp::now();
        BlobEntry {
            id: None,
            blob_id: Uuid::new_v4(),
            origin_id: None,
            label: "".to_owned(),
            blobstore: "default".to_owned(),
            hash: "".to_owned(),
            origin: "NvaSDK.rs".to_owned(),
            size: None,
            description: "".to_owned(),
            mime_type: "".to_owned(),
            metadata: "e30=".to_owned(),
            timestamp: Timestamp::epoch(),
            created_timestamp: Some(now),
            last_updated_timestamp: Some(now),
            _type: "BlobEntry".to_owned(),
            _version: SDK_VERSION.to_owned(),
        }
    }
}

/// The full columns of a blob entry row, as plain text the way the wire
/// carries them.
#[derive(Debug, Clone)]
pub struct BlobEntryFields {
    pub id: String,
    pub blob_id: String,
    pub origin_id: Option<String>,
    pub label: String,
    pub blobstore: Option<String>,
    pub hash: Option<String>,
    pub origin: Option<String>,
    pub size: Option<String>,
    pub description: Option<String>,
    pub mime_type: Option<String>,
    pub metadata: Option<String>,
    pub timestamp: Option<String>,
    pub created_timestamp: String,
    pub last_updated_timestamp: String,
    pub version: String,
    pub type_: Option<String>,
}

/// The summary columns of a blob entry row.
#[derive(Debug, Clone)]
pub struct BlobEntrySummaryFields {
    pub id: String,
    pub label: String,
    pub size: Option<String>,
    pub mime_type: Option<String>,
    pub last_updated_timestamp: String,
}

/// The text of an optional column, or empty when the column is absent.
pub open spec fn opt_text(o: Option<String>) -> Seq<char> {
    match o {
        Some(s) => s@,
        None => ""@,
    }
}

impl BlobEntry {
    /// Decode a full blob entry row.
    ///
    /// The entry and blob identifiers must spell UUIDs and a present size
    /// column must spell a number; such rows are rejected with the
    /// matching tagged error rather than aborting. A missing store column
    /// falls back to `"default"`, missing text columns to empty text, an
    /// unreadable blob instant to the current clock, and unreadable
    /// bookkeeping instants to "unknown".
    pub fn from_gql(begql: BlobEntryFields) -> (r: Result<BlobEntry, MarshalError>)
        ensures
            r is Ok <==> {
                &&& is_uuid_text(encode_utf8(begql.id@))
                &&& is_uuid_text(encode_utf8(begql.blob_id@))
                &&& (begql.origin_id matches Some(o) ==> is_uuid_text(encode_utf8(o@)))
                &&& (begql.size matches Some(s) ==> i64_parse_of(s@) is Some)
            },
            r matches Ok(e) ==> {
                &&& e.id matches Some(id) && (id.hi, id.lo) == uuid_text_value(
                    encode_utf8(begql.id@),
                )
                &&& (e.blob_id.hi, e.blob_id.lo) == uuid_text_value(encode_utf8(begql.blob_id@))
                &&& (match begql.origin_id {
                    Some(o) => e.origin_id matches Some(oid) && (oid.hi, oid.lo)
                        == uuid_text_value(encode_utf8(o@)),
                    None => e.origin_id is None,
                })
                &&& e.label@ == begql.label@
                &&& e.blobstore@ == (match begql.blobstore {
                    Some(s) => s@,
                    None => "default"@,
                })
                &&& e.hash@ == opt_text(begql.hash)
                &&& e.origin@ == opt_text(begql.origin)
                &&& (match begql.size {
                    Some(s) => e.size == i64_parse_of(s@),
                    None => e.size is None,
                })
                &&& e.description@ == opt_text(begql.description)
                &&& e.mime_type@ == opt_text(begql.mime_type)
                &&& e.metadata@ == opt_text(begql.metadata)
                &&& (match chrono_parse_fixed_of(
                    normalize_timestamp(encode_utf8(opt_text(begql.timestamp))),
                ) {
                    Some(t) => e.timestamp == (Timestamp { secs: t.0, nanos: t.1 }),
                    None => true,
                })
                &&& e.created_timestamp == (match chrono_parse_fixed_of(
                    normalize_timestamp(encode_utf8(begql.created_timestamp@)),
                ) {
                    Some(t) => Some(Timestamp { secs: t.0, nanos: t.1 }),
                    None => None::<Timestamp>,
                })
                &&& e.last_updated_timestamp == (match chrono_parse_fixed_of(
                    normalize_timestamp(encode_utf8(begql.last_updated_timestamp@)),
                ) {
                    Some(t) => Some(Timestamp { secs: t.0, nanos: t.1 }),
                    None => None::<Timestamp>,
                })
                &&& e._type@ == opt_text(begql.type_)
                &&& e._version@ == begql.version@
            },
            r matches Err(err) ==> err == (
            if is_uuid_text(encode_utf8(begql.id@)) && is_uuid_text(encode_utf8(begql.blob_id@))
                && (begql.origin_id matches Some(o) ==> is_uuid_text(encode_utf8(o@))) {
                MarshalError::InvalidNumber
            } else {
                MarshalError::InvalidUuid
            }),
    {
        let id = match Uuid::parse_str(begql.id.as_str()) {
            Ok(u) => u,
            Err(e) => {
                return Err(e);
            },
        };
        let blob_id = match Uuid::parse_str(begql.blob_id.as_str()) {
            Ok(u) => u,
            Err(e) => {
                return Err(e);
            },
        };
        let origin_id = match begql.origin_id {
            Some(o) => {
                match Uuid::parse_str(o.as_str()) {
                    Ok(u) => Some(u),
                    Err(e) => {
                        return Err(e);
                    },
                }
            },
            None => None,
        };
        let size = match begql.size {
            Some(s) => {
                match parse_i64(s.as_str()) {
                    Some(n) => Some(n),
                    None => {
                        return Err(MarshalError::InvalidNumber);
                    },
                }
            },
            None => None,
        };
        let blobstore = match begql.blobstore {
            Some(s) => s,
            None => "default".to_owned(),
        };
        let timestamp = match parse_str_utc(opt_text_exec(begql.timestamp)) {
            Ok(t) => t,
            Err(_) => Timestamp::now(),
        };
        let created_timestamp = match parse_str_utc(begql.created_timestamp) {
            Ok(t) => Some(t),
            Err(_) => None,
        };
        let last_updated_timestamp = match parse_str_utc(begql.last_updated_timestamp) {
            Ok(t) => Some(t),
            Err(_) => None,
        };
        Ok(
            BlobEntry {
                id: Some(id),
                blob_id,
                origin_id,
                label: begql.label,
                blobstore,
                hash: opt_text_exec(begql.hash),
                origin: opt_text_exec(begql.origin),
                size,
                description: opt_text_exec(begql.description),
                mime_type: opt_text_exec(begql.mime_type),
                metadata: opt_text_exec(begql.metadata),
                timestamp,
                created_timestamp,
                last_updated_timestamp,
                _type: opt_text_exec(begql.type_),
                _version: begql.version,
            },
        )
    }

    /// Decode the summary columns of a blob entry row; everything the
    /// summary does not carry takes the fresh-record default.
    pub fn from_gql_summary(begql: BlobEntrySummaryFields) -> (r: Result<BlobEntry, MarshalError>)
        ensures
            r is Ok <==> {
                &&& is_uuid_text(encode_utf8(begql.id@))
                &&& (begql.size matches Some(s) ==> i64_parse_of(s@) is Some)
            },
            r matches Ok(e) ==> {
                &&& e.id matches Some(id) && (id.hi, id.lo) == uuid_text_value(
                    encode_utf8(begql.id@),
                )
                &&& e.label@ == begql.label@
                &&& (match begql.size {
                    Some(s) => e.size == i64_parse_of(s@),
                    None => e.size is None,
                })
                &&& e.mime_type@ == opt_text(begql.mime_type)
                &&& e.last_updated_timestamp == (match chrono_parse_fixed_of(
                    normalize_timestamp(encode_utf8(begql.last_updated_timestamp@)),
                ) {
                    Some(t) => Some(Timestamp { secs: t.0, nanos: t.1 }),
                    None => None::<Timestamp>,
                })
            },
            r matches Err(err) ==> err == (
            if is_uuid_text(encode_utf8(begql.id@)) {
                MarshalError::InvalidNumber
            } else {
                MarshalError::InvalidUuid
            }),
    {
        let id = match Uuid::parse_str(begql.id.as_str()) {
            Ok(u) => u,
            Err(e) => {
                return Err(e);
            },
        };
        let size = match begql.size {
            Some(s) => {
                match parse_i64(s.as_str()) {
                    Some(n) => Some(n),
                    None => {
                        return Err(MarshalError::InvalidNumber);
                    },
                }
            },
            None => None,
        };
        let last_updated_timestamp = match parse_str_utc(begql.last_updated_timestamp) {
            Ok(t) => Some(t),
            Err(_) => None,
        };
        Ok(
            BlobEntry {
                id: Some(id),
                blob_id: Uuid::nil(),
                origin_id: None,
                label: begql.label,
                blobstore: "default".to_owned(),
                hash: "".to_owned(),
                origin: "".to_owned(),
                size,
                description: "".to_owned(),
                mime_type: opt_text_exec(begql.mime_type),
                metadata: "".to_owned(),
                timestamp: Timestamp::epoch(),
                created_timestamp: None,
                last_updated_timestamp,
                _type: "".to_owned(),
                _version: "".to_owned(),
            },
        )
    }

    /// Pull a batch of decoded entries out of a result channel, if one is
    /// waiting; which call observes a batch depends on the producer.
    pub fn try_from_receiver(rx: &std::sync::mpsc::Receiver<Vec<BlobEntry>>) -> Option<
        Vec<BlobEntry>,
    > {
        channel_try_recv(rx)
    }
}

/// The text of an optional column, or empty text when absent.
fn opt_text_exec(o: Option<String>) -> (r: String)
    ensures
        r@ == opt_text(o),
{
    match o {
        Some(s) => s,
        None => "".to_owned(),
    }
}

} // verus!

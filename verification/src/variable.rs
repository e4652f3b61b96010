//! The variable record: the node information of a factor graph variable,
//! packed for multi-language use. The numeric solver payloads (parametric
//! point estimates and solver data) are floating point and therefore live
//! with the caller; this record carries everything else.

use vstd::prelude::*;
use vstd::string::StrSliceExecFns;
use vstd::string::StringExecFns;
use vstd::utf8::encode_utf8;

use crate::blob_entry::BlobEntry;
use crate::ids::is_uuid_text;
use crate::ids::uuid_text_value;
use crate::ids::Uuid;
use crate::numbers::parse_usize;
use crate::numbers::usize_parse_of;
use crate::time::chrono_parse_fixed_of;
use crate::time::normalize_timestamp;
use crate::time::parse_str_utc;
use crate::time::Timestamp;
use crate::GetLabel;
use crate::SDK_VERSION;

verus! {

/// A factor-graph variable: label, type, bookkeeping instants and the blob
/// entries attached to it.
#[derive(Debug, Clone)]
pub struct VariableDFG {
    pub id: Option<Uuid>,
    pub label: String,
    pub tags: Vec<String>,
    pub timestamp: Timestamp,
    pub nstime: usize,
    pub blob_entries: Vec<BlobEntry>,
    pub variable_type: String,
    pub _version: String,
    pub metadata: String,
    pub solvable: i32,
}

impl GetLabel for VariableDFG {
    open spec fn label_spec(&self) -> Seq<char> {
        self.label@
    }

    fn getLabel(&self) -> (r: &String) {
        &self.label
    }
}

impl VariableDFG {
    /// Construct a fresh variable record; a missing instant falls back to
    /// the current clock and a missing nanosecond counter to zero.
    pub fn new(label: &str, variable_type: &str, timestamp: Option<Timestamp>, nstime: Option<
        usize,
    >) -> (r: VariableDFG)
        ensures
            r.id is None,
            r.label@ == label@,
            r.tags@.len() == 0,
            timestamp matches Some(t) ==> r.timestamp == t,
            r.nstime == (match nstime {
                Some(v) => v,
                None => 0usize,
            }),
            r.blob_entries@.len() == 0,
            r.variable_type@ == variable_type@,
            r._version@ == SDK_VERSION@,
            r.metadata@ == ""@,
            r.solvable == 1i32,
    {
        let ts = match timestamp {
            Some(t) => t,
            None => Timestamp::now(),
        };
        VariableDFG {
            id: None,
            label: label.to_owned(),
            tags: Vec::new(),
            timestamp: ts,
            nstime: match nstime {
                Some(v) => v,
                None => 0,
            },
            blob_entries: Vec::new(),
            variable_type: variable_type.to_owned(),
            _version: SDK_VERSION.to_owned(),
            metadata: "".to_owned(),
            solvable: 1,
        }
    }
}

/// The columns of a variable row, as plain text the way the wire carries
/// them, with its blob entries already decoded.
#[derive(Debug, Clone)]
pub struct VariableGqlFields {
    pub id: String,
    pub label: String,
    pub tags: Vec<String>,
    pub timestamp: String,
    pub nstime: String,
    pub variable_type: String,
    pub version: String,
    pub solvable: i64,
    pub metadata: Option<String>,
    pub blob_entries: Vec<BlobEntry>,
}

impl VariableDFG {
    /// Decode a variable row.
    ///
    /// Unreadable identifier, instant or counter columns degrade the same
    /// way this interface documents: the identifier to "unknown",
    /// the instant to the current clock, the counter to zero. The solvable
    /// column is truncated to its 32-bit range.
    pub fn from_gql(vgql: VariableGqlFields) -> (r: VariableDFG)
        ensures
            r.id == (if is_uuid_text(encode_utf8(vgql.id@)) {
                Some(
                    Uuid {
                        hi: uuid_text_value(encode_utf8(vgql.id@)).0,
                        lo: uuid_text_value(encode_utf8(vgql.id@)).1,
                    },
                )
            } else {
                None::<Uuid>
            }),
            r.label@ == vgql.label@,
            r.tags@ == vgql.tags@,
            (match chrono_parse_fixed_of(normalize_timestamp(encode_utf8(vgql.timestamp@))) {
                Some(t) => r.timestamp == (Timestamp { secs: t.0, nanos: t.1 }),
                None => true,
            }),
            r.nstime == (match usize_parse_of(vgql.nstime@) {
                Some(v) => v,
                None => 0usize,
            }),
            r.blob_entries@ == vgql.blob_entries@,
            r.variable_type@ == vgql.variable_type@,
            r._version@ == vgql.version@,
            r.metadata@ == (match vgql.metadata {
                Some(m) => m@,
                None => ""@,
            }),
            r.solvable == vgql.solvable as i32,
    {
        let id = match Uuid::parse_str(vgql.id.as_str()) {
            Ok(u) => Some(u),
            Err(_) => None,
        };
        let timestamp = match parse_str_utc(vgql.timestamp) {
            Ok(t) => t,
            Err(_) => Timestamp::now(),
        };
        let nstime = match parse_usize(vgql.nstime.as_str()) {
            Some(v) => v,
            None => 0,
        };
        let metadata = match vgql.metadata {
            Some(m) => m,
            None => "".to_owned(),
        };
        VariableDFG {
            id,
            label: vgql.label,
            tags: vgql.tags,
            timestamp,
            nstime,
            blob_entries: vgql.blob_entries,
            variable_type: vgql.variable_type,
            _version: vgql.version,
            metadata,
            solvable: #[verifier::truncate] (vgql.solvable as i32),
        }
    }
}

} // verus!

//! The agent record and its construction, both from literal fields and
//! from the rows a query response decodes into.

use vstd::prelude::*;
use vstd::string::StringExecFns;
use vstd::string::StringSliceAdditionalSpecFns;
use vstd::utf8::encode_utf8;

use crate::blob_entry::BlobEntry;
use crate::ids::is_uuid_text;
use crate::ids::uuid_text_value;
use crate::ids::uuid_v5_of;
use crate::ids::Uuid;
use crate::time::chrono_parse_fixed_of;
use crate::time::normalize_timestamp;
use crate::time::parse_str_utc;
use crate::time::Timestamp;
use crate::GetLabel;
use crate::MarshalError;
use crate::SDK_VERSION;

verus! {

/// An agent: a robot or program that owns blob entries and is linked to
/// models and factor graphs.
///
/// Blob entries are kept as a list addressed by their labels; models and
/// graphs are label/last-update pairs.
#[derive(Debug, Clone)]
pub struct Agent {
    pub id: Option<Uuid>,
    pub label: String,
    pub description: String,
    pub tags: Vec<String>,
    pub _version: String,
    pub created_timestamp: Timestamp,
    pub last_updated_timestamp: Option<Timestamp>,
    pub metadata: Option<String>,
    pub blob_entries: Option<Vec<BlobEntry>>,
    pub models: Option<Vec<(String, Timestamp)>>,
    pub fgs: Option<Vec<(String, Timestamp)>>,
}

impl Agent {
    /// Construct a fresh agent record.
    ///
    /// The identifier is derived deterministically from the organization's
    /// namespace and the label; the creation instant doubles as the last
    /// update.
    pub fn new(
        org_id: &Uuid,
        label: String,
        description: String,
        tags: Vec<String>,
        created_timestamp: Timestamp,
    ) -> (r: Agent)
        ensures
            r.id matches Some(id) && (id.hi, id.lo) == uuid_v5_of(
                org_id.hi,
                org_id.lo,
                encode_utf8(label@),
            ),
            r.label@ == label@,
            r.description@ == description@,
            r.tags@ == tags@,
            r._version@ == SDK_VERSION@,
            r.created_timestamp == created_timestamp,
            r.last_updated_timestamp == Some(created_timestamp),
            r.metadata is None && r.blob_entries is None && r.models is None && r.fgs is None,
    {
        let id = org_id.new_v5(label.as_str().as_bytes());
        Agent {
            id: Some(id),
            label,
            description,
            tags,
            _version: SDK_VERSION.to_owned(),
            created_timestamp,
            last_updated_timestamp: Some(created_timestamp),
            metadata: None,
            blob_entries: None,
            models: None,
            fgs: None,
        }
    }
}

impl GetLabel for Agent {
    open spec fn label_spec(&self) -> Seq<char> {
        self.label@
    }

    fn getLabel(&self) -> (r: &String) {
        &self.label
    }
}

/// The summary columns of an agent row, as plain text the way the wire
/// carries them.
#[derive(Debug, Clone)]
pub struct AgentFieldsSummary {
    pub id: String,
    pub label: String,
    pub description: Option<String>,
    pub tags: Vec<String>,
    pub version: String,
    pub created_timestamp: String,
    pub last_updated_timestamp: String,
}

/// The relationship columns of a full agent row: metadata, owned blob
/// entries (already decoded), and label/last-update pairs for linked
/// models and graphs.
#[derive(Debug, Clone)]
pub struct AgentFieldsFull {
    pub metadata: Option<String>,
    pub blob_entries: Vec<BlobEntry>,
    pub models: Vec<(String, String)>,
    pub fgs: Vec<(String, String)>,
}

impl Agent {
    /// Decode the summary columns of an agent row.
    ///
    /// The row's identifier must spell a UUID; a row with an unreadable
    /// identifier is rejected rather than aborting. An unreadable creation
    /// instant falls back to the current clock, an unreadable update
    /// instant to "unknown", both documented fallbacks of this interface.
    pub fn from_gql_summary(aggql: AgentFieldsSummary) -> (r: Result<Agent, MarshalError>)
        ensures
            r is Ok <==> is_uuid_text(encode_utf8(aggql.id@)),
            r matches Ok(a) ==> {
                &&& a.id matches Some(id) && (id.hi, id.lo) == uuid_text_value(
                    encode_utf8(aggql.id@),
                )
                &&& a.label@ == aggql.label@
                &&& a.description@ == (match aggql.description {
                    Some(d) => d@,
                    None => ""@,
                })
                &&& a.tags@ == aggql.tags@
                &&& a._version@ == aggql.version@
                &&& (match chrono_parse_fixed_of(
                    normalize_timestamp(encode_utf8(aggql.created_timestamp@)),
                ) {
                    Some(t) => a.created_timestamp == (Timestamp { secs: t.0, nanos: t.1 }),
                    None => true,
                })
                &&& a.last_updated_timestamp == (match chrono_parse_fixed_of(
                    normalize_timestamp(encode_utf8(aggql.last_updated_timestamp@)),
                ) {
                    Some(t) => Some(Timestamp { secs: t.0, nanos: t.1 }),
                    None => None::<Timestamp>,
                })
                &&& a.metadata is None && a.blob_entries is None && a.models is None && a.fgs
                    is None
            },
            r matches Err(e) ==> e == MarshalError::InvalidUuid,
    {
        let id = match Uuid::parse_str(aggql.id.as_str()) {
            Ok(u) => u,
            Err(_) => {
                return Err(MarshalError::InvalidUuid);
            },
        };
        let description = match aggql.description {
            Some(d) => d,
            None => "".to_owned(),
        };
        let created_timestamp = match parse_str_utc(aggql.created_timestamp) {
            Ok(t) => t,
            Err(_) => Timestamp::now(),
        };
        let last_updated_timestamp = match parse_str_utc(aggql.last_updated_timestamp) {
            Ok(t) => Some(t),
            Err(_) => None,
        };
        Ok(
            Agent {
                id: Some(id),
                label: aggql.label,
                description,
                tags: aggql.tags,
                _version: aggql.version,
                created_timestamp,
                last_updated_timestamp,
                metadata: None,
                blob_entries: None,
                models: None,
                fgs: None,
            },
        )
    }

    /// Decode the relationship columns of a full agent row into an already
    /// summarized agent.
    ///
    /// Every model and graph row must carry a readable update instant; a
    /// row that does not is rejected rather than aborting, and the agent
    /// is left unchanged.
    pub fn from_gql_full(aggql: AgentFieldsFull, ag: &mut Agent) -> (r: Result<
        (),
        MarshalError,
    >)
        ensures
            r is Ok <==> (forall|i: int|
                0 <= i < aggql.models@.len() ==> chrono_parse_fixed_of(
                    normalize_timestamp(encode_utf8(#[trigger] aggql.models@[i].1@)),
                ) is Some) && (forall|i: int|
                0 <= i < aggql.fgs@.len() ==> chrono_parse_fixed_of(
                    normalize_timestamp(encode_utf8(#[trigger] aggql.fgs@[i].1@)),
                ) is Some),
            r is Ok ==> {
                &&& final(ag).metadata == aggql.metadata
                &&& final(ag).blob_entries matches Some(entries) && entries@ == aggql.blob_entries@
                &&& final(ag).models matches Some(models) && models@.len() == aggql.models@.len()
                    && (forall|i: int|
                    0 <= i < models@.len() ==> (#[trigger] models@[i]).0@ == aggql.models@[i].0@)
                &&& final(ag).fgs matches Some(fgs) && fgs@.len() == aggql.fgs@.len() && (forall|
                    i: int,
                |
                    0 <= i < fgs@.len() ==> (#[trigger] fgs@[i]).0@ == aggql.fgs@[i].0@)
                &&& final(ag).id == old(ag).id
                &&& final(ag).label == old(ag).label
                &&& final(ag).created_timestamp == old(ag).created_timestamp
            },
            r is Err ==> *final(ag) == *old(ag),
            r matches Err(e) ==> e == MarshalError::InvalidTimestamp,
    {
        let mut models: Vec<(String, Timestamp)> = Vec::new();
        let mut i: usize = 0;
        let n = aggql.models.len();
        while i < n
            invariant
                n == aggql.models@.len(),
                i <= n,
                models@.len() == i,
                forall|k: int|
                    0 <= k < i ==> (#[trigger] models@[k]).0@ == aggql.models@[k].0@,
                forall|k: int|
                    0 <= k < i ==> chrono_parse_fixed_of(
                        normalize_timestamp(encode_utf8(#[trigger] aggql.models@[k].1@)),
                    ) is Some,
            decreases n - i,
        {
            let ts = match parse_str_utc(aggql.models[i].1.clone()) {
                Ok(t) => t,
                Err(_) => {
                    return Err(MarshalError::InvalidTimestamp);
                },
            };
            models.push((aggql.models[i].0.clone(), ts));
            i += 1;
        }
        let mut fgs: Vec<(String, Timestamp)> = Vec::new();
        let mut j: usize = 0;
        let m = aggql.fgs.len();
        while j < m
            invariant
                m == aggql.fgs@.len(),
                j <= m,
                fgs@.len() == j,
                forall|k: int| 0 <= k < j ==> (#[trigger] fgs@[k]).0@ == aggql.fgs@[k].0@,
                forall|k: int|
                    0 <= k < j ==> chrono_parse_fixed_of(
                        normalize_timestamp(encode_utf8(#[trigger] aggql.fgs@[k].1@)),
                    ) is Some,
            decreases m - j,
        {
            let ts = match parse_str_utc(aggql.fgs[j].1.clone()) {
                Ok(t) => t,
                Err(_) => {
                    return Err(MarshalError::InvalidTimestamp);
                },
            };
            fgs.push((aggql.fgs[j].0.clone(), ts));
            j += 1;
        }
        ag.metadata = aggql.metadata;
        ag.blob_entries = Some(aggql.blob_entries);
        ag.models = Some(models);
        ag.fgs = Some(fgs);
        Ok(())
    }
}

} // verus!

//! The foreign-call boundary: constructor / accessor / destructor triplets
//! for every exposed type, phrased over owned handles and borrowed
//! references instead of raw pointers.
//!
//! A constructor validates its foreign inputs (null-terminated byte
//! buffers, primitives), builds the native value, and returns an owned
//! handle (`Box`); ownership is the caller's until the matching `free_*`
//! destructor takes the handle back by value. Accessors borrow a handle
//! and hand out either primitives or freshly owned buffers. Every
//! validation failure is reported through a tagged result: no constructor
//! aborts the process. A destructor accepts the absent marker (`None`) and
//! does nothing for it.

#![allow(non_snake_case)]

use vstd::prelude::*;
use vstd::string::StrSliceExecFns;
use vstd::string::StringSliceAdditionalSpecFns;
use vstd::utf8::decode_utf8;
use vstd::utf8::encode_utf8;
use vstd::utf8::valid_utf8;

use crate::agent::Agent;
use crate::blob_entry::BlobEntry;
use crate::client::NavAbilityBlobStore;
use crate::client::NavAbilityClient;
use crate::client::NavAbilityDFG;
use crate::client::NvaNode;
use crate::descriptor::free_rvec;
use crate::descriptor::RVec;
use crate::factors::Pose3Pose3;
use crate::ids::is_uuid_text;
use crate::ids::uuid_text_value;
use crate::ids::Uuid;
use crate::text::c_prefix;
use crate::text::convert_str;
use crate::text::cstr_to_str;
use crate::text::has_nul;
use crate::text::ByteBuffer;
use crate::time::chrono_parse_fixed_of;
use crate::time::normalize_timestamp;
use crate::time::parse_str_utc;
use crate::time::Timestamp;
use crate::variable::VariableDFG;
use crate::MarshalError;

verus! {

/// True when a foreign buffer carries readable text: it is
/// null-terminated and the bytes before the terminator are valid UTF-8.
pub open spec fn foreign_text_ok(b: Seq<u8>) -> bool {
    has_nul(b) && valid_utf8(c_prefix(b))
}

/// The text a readable foreign buffer carries.
pub open spec fn foreign_text(b: Seq<u8>) -> Seq<char> {
    decode_utf8(c_prefix(b))
}

/// Construct a client connection handle from foreign text buffers for the
/// endpoint, the organization identifier and the API token.
///
/// The caller owns the returned handle and must eventually release it
/// through [`free_NavAbilityClient`].
pub fn NavAbilityClient_new(api_url: &Vec<u8>, orgid: &Vec<u8>, api_token: &Vec<u8>) -> (r: Result<
    Box<NavAbilityClient>,
    MarshalError,
>)
    ensures
        r is Ok <==> foreign_text_ok(api_url@) && foreign_text_ok(orgid@) && foreign_text_ok(
            api_token@,
        ),
        r matches Ok(c) ==> {
            &&& c.apiurl@ == foreign_text(api_url@)
            &&& c.user_label@ == foreign_text(orgid@)
            &&& c.nva_api_token@ == foreign_text(api_token@)
        },
{
    let url = match cstr_to_str(api_url) {
        Ok(s) => s,
        Err(e) => {
            return Err(e);
        },
    };
    let oid = match cstr_to_str(orgid) {
        Ok(s) => s,
        Err(e) => {
            return Err(e);
        },
    };
    let atk = match cstr_to_str(api_token) {
        Ok(s) => s,
        Err(e) => {
            return Err(e);
        },
    };
    Ok(Box::new(NavAbilityClient::new(&url, &oid, &atk)))
}

/// Construct a factor-graph client handle from a borrowed client handle
/// and foreign text buffers for the graph, agent and optional store
/// labels.
///
/// The client handle is only borrowed; the caller owns the returned
/// handle and must eventually release it through [`free_NavAbilityDFG`].
/// Ensuring the named graph and agent exist remotely is transport work
/// and stays with the caller.
pub fn NavAbilityDFG_new(
    nvacl: &NavAbilityClient,
    fgLabel: &Vec<u8>,
    agentLabel: &Vec<u8>,
    storeLabel: Option<&Vec<u8>>,
) -> (r: Result<Box<NavAbilityDFG>, MarshalError>)
    requires
        is_uuid_text(encode_utf8(nvacl.user_label@)),
    ensures
        r is Ok <==> foreign_text_ok(fgLabel@) && foreign_text_ok(agentLabel@) && (
        storeLabel matches Some(sl) ==> foreign_text_ok(sl@)),
        r matches Ok(d) ==> {
            &&& d.wf()
            &&& d.client.user_label@ == nvacl.user_label@
            &&& d.fg.label@ == foreign_text(fgLabel@)
            &&& d.agent.label@ == foreign_text(agentLabel@)
            &&& (d.fg.namespace.hi, d.fg.namespace.lo) == uuid_text_value(
                encode_utf8(nvacl.user_label@),
            )
            &&& d.blob_stores@.len() == 1
            &&& d.blob_stores@[0].label@ == (match storeLabel {
                Some(sl) => foreign_text(sl@),
                None => "default"@,
            })
        },
{
    let fgl = match cstr_to_str(fgLabel) {
        Ok(s) => s,
        Err(e) => {
            return Err(e);
        },
    };
    let agl = match cstr_to_str(agentLabel) {
        Ok(s) => s,
        Err(e) => {
            return Err(e);
        },
    };
    let stl: Option<String> = match storeLabel {
        Some(sl) => {
            match cstr_to_str(sl) {
                Ok(s) => Some(s),
                Err(e) => {
                    return Err(e);
                },
            }
        },
        None => None,
    };
    let dfg = match &stl {
        Some(s) => NavAbilityDFG::new(nvacl, fgl.as_str(), agl.as_str(), Some(s.as_str())),
        None => NavAbilityDFG::new(nvacl, fgl.as_str(), agl.as_str(), None),
    };
    Ok(Box::new(dfg))
}

/// Read the endpoint out of a borrowed client handle as a fresh text
/// buffer the caller owns (release it through `free_cstr`).
pub fn get_apiurl(nvacl: &NavAbilityClient) -> (r: Result<ByteBuffer, MarshalError>)
    ensures
        r is Ok <==> !encode_utf8(nvacl.apiurl@).contains(0),
        r matches Ok(b) ==> b.wf() && b.content() == encode_utf8(nvacl.apiurl@),
{
    convert_str(nvacl.apiurl.as_str())
}

/// Construct a blob store handle from a borrowed client handle and a
/// foreign label buffer; release it through [`free_NavAbilityBlobStore`].
pub fn NavAbilityBlobStore_new(nvacl: &NavAbilityClient, label: &Vec<u8>) -> (r: Result<
    Box<NavAbilityBlobStore>,
    MarshalError,
>)
    ensures
        r is Ok <==> foreign_text_ok(label@),
        r matches Ok(s) ==> s.label@ == foreign_text(label@) && s.client.apiurl@ == nvacl.apiurl@
            && s.client.user_label@ == nvacl.user_label@,
{
    let lb = match cstr_to_str(label) {
        Ok(s) => s,
        Err(e) => {
            return Err(e);
        },
    };
    Ok(
        Box::new(
            NavAbilityBlobStore {
                client: NavAbilityClient::new(
                    &nvacl.apiurl,
                    &nvacl.user_label,
                    &nvacl.nva_api_token,
                ),
                label: lb,
            },
        ),
    )
}

/// Construct a blobless blob entry handle from foreign label and MIME
/// buffers; the blob identifier is the nil UUID until a blob is assigned.
/// Release it through [`free_BlobEntry`].
pub fn BlobEntry_basic(label: &Vec<u8>, mimeType: &Vec<u8>) -> (r: Result<
    Box<BlobEntry>,
    MarshalError,
>)
    ensures
        r is Ok <==> foreign_text_ok(label@) && foreign_text_ok(mimeType@),
        r matches Ok(e) ==> {
            &&& e.label@ == foreign_text(label@)
            &&& e.mime_type@ == foreign_text(mimeType@)
            &&& e.blob_id.hi == 0 && e.blob_id.lo == 0
            &&& e.blobstore@ == "default"@
        },
{
    let lb = match cstr_to_str(label) {
        Ok(s) => s,
        Err(e) => {
            return Err(e);
        },
    };
    let mt = match cstr_to_str(mimeType) {
        Ok(s) => s,
        Err(e) => {
            return Err(e);
        },
    };
    let mut be = BlobEntry::new();
    be.blob_id = Uuid::nil();
    be.label = lb;
    be.mime_type = mt;
    Ok(Box::new(be))
}

/// Construct a fully specified blob entry handle from foreign buffers and
/// a size; release it through [`free_BlobEntry`].
///
/// Every text buffer must be readable, the blob identifier must spell a
/// UUID and the timestamp must be readable; any malformed input is
/// reported as the matching tagged error instead of aborting.
pub fn BlobEntry_new(
    blobId: &Vec<u8>,
    label: &Vec<u8>,
    blobstore: &Vec<u8>,
    hash: &Vec<u8>,
    origin: &Vec<u8>,
    size: i64,
    description: &Vec<u8>,
    mimeType: &Vec<u8>,
    metadata: &Vec<u8>,
    timestamp: &Vec<u8>,
) -> (r: Result<Box<BlobEntry>, MarshalError>)
    ensures
        r is Ok <==> {
            &&& foreign_text_ok(blobId@) && foreign_text_ok(label@) && foreign_text_ok(blobstore@)
            &&& foreign_text_ok(hash@) && foreign_text_ok(origin@) && foreign_text_ok(
                description@,
            )
            &&& foreign_text_ok(mimeType@) && foreign_text_ok(metadata@) && foreign_text_ok(
                timestamp@,
            )
            &&& is_uuid_text(encode_utf8(foreign_text(blobId@)))
            &&& chrono_parse_fixed_of(
                normalize_timestamp(encode_utf8(foreign_text(timestamp@))),
            ) is Some
        },
        r matches Ok(e) ==> {
            &&& (e.blob_id.hi, e.blob_id.lo) == uuid_text_value(
                encode_utf8(foreign_text(blobId@)),
            )
            &&& e.label@ == foreign_text(label@)
            &&& e.blobstore@ == foreign_text(blobstore@)
            &&& e.hash@ == foreign_text(hash@)
            &&& e.origin@ == foreign_text(origin@)
            &&& e.size == Some(size)
            &&& e.description@ == foreign_text(description@)
            &&& e.mime_type@ == foreign_text(mimeType@)
            &&& e.metadata@ == foreign_text(metadata@)
            &&& Some((e.timestamp.secs, e.timestamp.nanos)) == chrono_parse_fixed_of(
                normalize_timestamp(encode_utf8(foreign_text(timestamp@))),
            )
        },
{
    let blob_id_s = match cstr_to_str(blobId) {
        Ok(s) => s,
        Err(e) => {
            return Err(e);
        },
    };
    let label_s = match cstr_to_str(label) {
        Ok(s) => s,
        Err(e) => {
            return Err(e);
        },
    };
    let blobstore_s = match cstr_to_str(blobstore) {
        Ok(s) => s,
        Err(e) => {
            return Err(e);
        },
    };
    let hash_s = match cstr_to_str(hash) {
        Ok(s) => s,
        Err(e) => {
            return Err(e);
        },
    };
    let origin_s = match cstr_to_str(origin) {
        Ok(s) => s,
        Err(e) => {
            return Err(e);
        },
    };
    let description_s = match cstr_to_str(description) {
        Ok(s) => s,
        Err(e) => {
            return Err(e);
        },
    };
    let mime_s = match cstr_to_str(mimeType) {
        Ok(s) => s,
        Err(e) => {
            return Err(e);
        },
    };
    let metadata_s = match cstr_to_str(metadata) {
        Ok(s) => s,
        Err(e) => {
            return Err(e);
        },
    };
    let timestamp_s = match cstr_to_str(timestamp) {
        Ok(s) => s,
        Err(e) => {
            return Err(e);
        },
    };
    let blob_id = match Uuid::parse_str(blob_id_s.as_str()) {
        Ok(u) => u,
        Err(e) => {
            return Err(e);
        },
    };
    let ts = match parse_str_utc(timestamp_s) {
        Ok(t) => t,
        Err(e) => {
            return Err(e);
        },
    };
    let mut be = BlobEntry::new();
    be.blob_id = blob_id;
    be.label = label_s;
    be.blobstore = blobstore_s;
    be.hash = hash_s;
    be.origin = origin_s;
    be.size = Some(size);
    be.description = description_s;
    be.mime_type = mime_s;
    be.metadata = metadata_s;
    be.timestamp = ts;
    Ok(Box::new(be))
}

/// Read an agent's label as a fresh text buffer the caller owns.
pub fn getLabel_Agent(agent: &Agent) -> (r: Result<ByteBuffer, MarshalError>)
    ensures
        r is Ok <==> !encode_utf8(agent.label@).contains(0),
        r matches Ok(b) ==> b.wf() && b.content() == encode_utf8(agent.label@),
{
    convert_str(agent.label.as_str())
}

/// Read a blob entry's label as a fresh text buffer the caller owns.
pub fn getLabel_BlobEntry(bentry: &BlobEntry) -> (r: Result<ByteBuffer, MarshalError>)
    ensures
        r is Ok <==> !encode_utf8(bentry.label@).contains(0),
        r matches Ok(b) ==> b.wf() && b.content() == encode_utf8(bentry.label@),
{
    convert_str(bentry.label.as_str())
}

/// Read a blob store's label as a fresh text buffer the caller owns.
pub fn getLabel_NavAbilityBlobStore(store: &NavAbilityBlobStore) -> (r: Result<
    ByteBuffer,
    MarshalError,
>)
    ensures
        r is Ok <==> !encode_utf8(store.label@).contains(0),
        r matches Ok(b) ==> b.wf() && b.content() == encode_utf8(store.label@),
{
    convert_str(store.label.as_str())
}

/// Read the label of the agent record associated with a client, as a
/// fresh text buffer the caller owns.
pub fn getLabel_NavAbilityClient(input: &Agent) -> (r: Result<ByteBuffer, MarshalError>)
    ensures
        r is Ok <==> !encode_utf8(input.label@).contains(0),
        r matches Ok(b) ==> b.wf() && b.content() == encode_utf8(input.label@),
{
    convert_str(input.label.as_str())
}

/// Read a graph node's label as a fresh text buffer the caller owns.
pub fn getLabel_NvaNode<T>(input: &NvaNode<T>) -> (r: Result<ByteBuffer, MarshalError>)
    ensures
        r is Ok <==> !encode_utf8(input.label@).contains(0),
        r matches Ok(b) ==> b.wf() && b.content() == encode_utf8(input.label@),
{
    convert_str(input.label.as_str())
}

/// Read the factor-graph label of a factor-graph client as a fresh text
/// buffer the caller owns.
pub fn getLabel_NavAbilityDFG(input: &NavAbilityDFG) -> (r: Result<ByteBuffer, MarshalError>)
    ensures
        r is Ok <==> !encode_utf8(input.fg.label@).contains(0),
        r matches Ok(b) ==> b.wf() && b.content() == encode_utf8(input.fg.label@),
{
    convert_str(input.fg.label.as_str())
}

/// Release a descriptor of agent records: every held agent is destroyed
/// exactly once along with the backing run.
pub fn free_rvecagent(rvec: Box<RVec<Agent>>) {
    free_rvec::<Agent>(*rvec)
}

/// Release a variable handle; the absent marker is accepted and ignored.
pub fn free_VariableDFG(handle: Option<Box<VariableDFG>>) {
    let _ = handle;
}

/// Release a relative-pose factor handle; the absent marker is accepted
/// and ignored.
pub fn free_Pose3Pose3<T>(handle: Option<Box<Pose3Pose3<T>>>) {
    let _ = handle;
}

/// Release a blob entry handle; the absent marker is accepted and
/// ignored.
pub fn free_BlobEntry(handle: Option<Box<BlobEntry>>) {
    let _ = handle;
}

/// Release a client handle; the absent marker is accepted and ignored.
pub fn free_NavAbilityClient(handle: Option<Box<NavAbilityClient>>) {
    let _ = handle;
}

/// Release a factor-graph client handle; the absent marker is accepted
/// and ignored.
pub fn free_NavAbilityDFG(handle: Option<Box<NavAbilityDFG>>) {
    let _ = handle;
}

/// Release a blob store handle; the absent marker is accepted and
/// ignored.
pub fn free_NavAbilityBlobStore(handle: Option<Box<NavAbilityBlobStore>>) {
    let _ = handle;
}

} // verus!

//! The query layer: one marker type per remote operation, the plain
//! variables record each operation posts, and the verified request-building
//! steps that the transport callers wrap.
//!
//! A request body pairs an operation name with its variables; the GraphQL
//! document text belongs to the transport layer that owns the schema, so
//! the body carries whatever document the caller supplies (empty by
//! default from the markers' `build_query`).

use vstd::prelude::*;
use vstd::string::StrSliceExecFns;
use vstd::string::StringExecFns;
use vstd::utf8::encode_utf8;

use crate::blob_entry::BlobEntry;
use crate::client::NavAbilityClient;
use crate::client::NavAbilityDFG;
use crate::ids::uuid_text;
use crate::ids::uuid_v5_of;
use crate::ids::Uuid;
use crate::numbers::dec_digits_signed;
use crate::numbers::i64_dec_string;
use crate::text::ascii_chars;
use crate::time::Timestamp;
use crate::GetId;
use crate::SDK_VERSION;

verus! {

/// A ready-to-post request body: operation name, document text and the
/// operation's variables.
#[derive(Debug, Clone)]
pub struct QueryBody<V> {
    pub operation_name: String,
    pub query: String,
    pub variables: V,
}

/// The hyphenated spelling of the name-based identifier of `name` under
/// the namespace `ns`.
pub open spec fn v5_text(ns_hi: u64, ns_lo: u64, name: Seq<u8>) -> Seq<char> {
    ascii_chars(
        uuid_text(uuid_v5_of(ns_hi, ns_lo, name).0, uuid_v5_of(ns_hi, ns_lo, name).1),
    )
}

/// The hyphenated spelling of an identifier.
pub open spec fn uuid_str(u: Uuid) -> Seq<char> {
    ascii_chars(uuid_text(u.hi, u.lo))
}

} // verus!

verus! {

/// Variables for reading one blob entry by identifier.
#[derive(Debug, Clone)]
pub struct GetBlobEntryVariables {
    pub entry_id: String,
}

/// Variables for listing the agent labels of an organization.
#[derive(Debug, Clone)]
pub struct ListAgentsVariables {
    pub org_id: String,
}

/// Variables for replacing an agent's metadata.
#[derive(Debug, Clone)]
pub struct UpdateAgentMetadataVariables {
    pub id: String,
    pub metadata: String,
}

/// Variables for reading agents, optionally narrowed to one agent.
#[derive(Debug, Clone)]
pub struct GetAgentsVariables {
    pub org_id: String,
    pub agent_id: Option<String>,
    pub full: Option<bool>,
}

/// Variables for the legacy user/robot/session listing.
#[derive(Debug, Clone)]
pub struct GetURSVariables {
    pub org_id: String,
}

/// Variables for listing models by label fragment.
#[derive(Debug, Clone)]
pub struct ListModelsVariables {
    pub label_contains: Option<String>,
}

/// Variables for listing models together with their graphs.
#[derive(Debug, Clone)]
pub struct ListModelsGraphsVariables {
    pub label_contains: Option<String>,
}

/// Variables for reading the blob entry metadata of an agent.
#[derive(Debug, Clone)]
pub struct GetAgentEntriesMetadataVariables {
    pub org_id: String,
    pub agent_label: String,
    pub mime_type_contains: Option<String>,
}

/// Variables for creating a blob download.
#[derive(Debug, Clone)]
pub struct CreateDownloadVariables {
    pub blob_id: String,
    pub store: String,
}

/// Variables for creating a blob upload.
#[derive(Debug, Clone)]
pub struct CreateUploadVariables {
    pub blob_id: String,
    pub parts: i64,
}

/// One completed part of a multipart upload.
#[derive(Debug, Clone)]
pub struct CompletedUploadPartInput {
    pub part_number: i64,
    pub e_tag: Option<String>,
}

/// The completed-upload report: the upload identifier and its parts.
#[derive(Debug, Clone)]
pub struct CompletedUploadInput {
    pub upload_id: String,
    pub parts: Vec<Option<CompletedUploadPartInput>>,
}

/// Variables for completing a blob upload.
#[derive(Debug, Clone)]
pub struct CompleteUploadVariables {
    pub blob_id: String,
    pub completed_upload: CompletedUploadInput,
}

/// Variables for starting a remote worker.
#[derive(Debug, Clone)]
pub struct StartWorkerVariables {
    pub input: String,
    pub worker_label: String,
}

/// Variables for reading one variable of a factor graph.
#[derive(Debug, Clone)]
pub struct GetVariableVariables {
    pub var_id: String,
    pub fields_summary: bool,
    pub fields_full: bool,
}

/// Variables for listing the variable labels of a factor graph.
#[derive(Debug, Clone)]
pub struct ListVariablesVariables {
    pub fg_id: String,
    pub solvable_gt: Option<i64>,
    pub solvable_gte: Option<i64>,
    pub solvable_in: Option<Vec<i64>>,
    pub solvable_lt: Option<i64>,
    pub solvable_lte: Option<i64>,
    pub tags_includes: Option<String>,
}

/// Variables for adding a variable to a factor graph.
#[derive(Debug, Clone)]
pub struct AddVariableVariables {
    pub id: String,
    pub label: String,
    pub variable_type: String,
    pub tags: Vec<String>,
    pub timestamp: Option<String>,
    pub nstime: Option<String>,
    pub solvable: Option<i64>,
    pub metadata: Option<String>,
}

/// Variables for attaching a blob entry to an agent.
#[derive(Debug, Clone)]
pub struct AddBlobEntryAgentVariables {
    pub agent_label: String,
    pub entry_id: String,
    pub entry_label: String,
    pub blob_id: String,
    pub blobstore: Option<String>,
    pub origin: Option<String>,
    pub mime_type: Option<String>,
    pub metadata: String,
    pub description: Option<String>,
    pub hash: String,
    pub size: Option<String>,
    pub timestamp: Option<String>,
}

/// Variables for attaching a blob entry to a model.
#[derive(Debug, Clone)]
pub struct AddBlobEntryModelVariables {
    pub model_label: String,
    pub entry_id: String,
    pub entry_label: String,
    pub blob_id: String,
    pub blobstore: Option<String>,
    pub origin: Option<String>,
    pub mime_type: Option<String>,
    pub metadata: String,
    pub description: Option<String>,
    pub hash: String,
    pub size: Option<String>,
    pub timestamp: Option<String>,
}

/// Variables for attaching a blob entry to a factor graph.
#[derive(Debug, Clone)]
pub struct AddFactorgraphBlobEntryVariables {
    pub fg_label: String,
    pub entry_id: String,
    pub entry_label: String,
    pub blob_id: String,
    pub blobstore: Option<String>,
    pub origin: Option<String>,
    pub mime_type: Option<String>,
    pub metadata: String,
    pub description: Option<String>,
    pub hash: String,
    pub size: Option<String>,
    pub timestamp: Option<String>,
}

/// Variables for deleting a blob entry by identifier.
#[derive(Debug, Clone)]
pub struct DeleteBlobEntryVariables {
    pub id: String,
}

/// Variables for deleting a blob from a store.
#[derive(Debug, Clone)]
pub struct DeleteBlobVariables {
    pub blob_id: String,
    pub label: Option<String>,
}

/// Variables for reading the caller's organization.
#[derive(Debug, Clone)]
pub struct GetOrgVariables {}

/// Variables for listing the factor graphs of an organization.
#[derive(Debug, Clone)]
pub struct ListGraphsVariables {
    pub id: String,
}

/// Variables for adding an agent to an organization.
#[derive(Debug, Clone)]
pub struct AddAgentVariables {
    pub agent_id: String,
    pub label: String,
    pub version: String,
    pub org_id: String,
}

/// Variables for adding a model to an organization.
#[derive(Debug, Clone)]
pub struct AddModelVariables {
    pub org_id: String,
    pub model_id: String,
    pub label: String,
    pub tags: Option<Vec<String>>,
}

/// Variables for replacing a blob entry's metadata.
#[derive(Debug, Clone)]
pub struct UpdateBlobentryMetadataVariables {
    pub id: String,
    pub metadata: String,
}

/// Variables for adding a factor graph to an organization.
#[derive(Debug, Clone)]
pub struct AddFactorgraphVariables {
    pub org_id: Option<String>,
    pub id: Option<String>,
    pub label: Option<String>,
    pub description: Option<String>,
    pub metadata: Option<String>,
    pub version: Option<String>,
}

/// Variables for linking a factor graph to an agent.
#[derive(Debug, Clone)]
pub struct ConnectGraphAgentVariables {
    pub fg_id: String,
    pub agent_id: String,
}

/// Variables for finding model/graph pairs of an organization.
#[derive(Debug, Clone)]
pub struct FindOrgModelGraphsVariables {
    pub org_id: String,
    pub model_label_contains: Option<String>,
    pub fg_label_contains: Option<String>,
}

/// Read one blob entry by identifier.
#[derive(Debug, Clone)]
pub struct GetBlobEntry;

impl GetBlobEntry {
    /// Pair the operation's name with its variables; the document text is
    /// left for the transport layer to fill in.
    pub fn build_query(variables: GetBlobEntryVariables) -> (r: QueryBody<GetBlobEntryVariables>)
        ensures
            r.operation_name@ == "GetBlobEntry"@,
            r.query@.len() == 0,
            r.variables == variables,
    {
        QueryBody {
            operation_name: String::from_str("GetBlobEntry"),
            query: String::new(),
            variables,
        }
    }
}

/// List the agent labels of an organization.
#[derive(Debug, Clone)]
pub struct ListAgents;

impl ListAgents {
    /// Pair the operation's name with its variables; the document text is
    /// left for the transport layer to fill in.
    pub fn build_query(variables: ListAgentsVariables) -> (r: QueryBody<ListAgentsVariables>)
        ensures
            r.operation_name@ == "ListAgents"@,
            r.query@.len() == 0,
            r.variables == variables,
    {
        QueryBody {
            operation_name: String::from_str("ListAgents"),
            query: String::new(),
            variables,
        }
    }
}

/// Replace an agent's metadata.
#[derive(Debug, Clone)]
pub struct UpdateAgentMetadata;

impl UpdateAgentMetadata {
    /// Pair the operation's name with its variables; the document text is
    /// left for the transport layer to fill in.
    pub fn build_query(variables: UpdateAgentMetadataVariables) -> (r: QueryBody<UpdateAgentMetadataVariables>)
        ensures
            r.operation_name@ == "UpdateAgentMetadata"@,
            r.query@.len() == 0,
            r.variables == variables,
    {
        QueryBody {
            operation_name: String::from_str("UpdateAgentMetadata"),
            query: String::new(),
            variables,
        }
    }
}

/// Read agents with their summary and full columns.
#[derive(Debug, Clone)]
pub struct GetAgents;

impl GetAgents {
    /// Pair the operation's name with its variables; the document text is
    /// left for the transport layer to fill in.
    pub fn build_query(variables: GetAgentsVariables) -> (r: QueryBody<GetAgentsVariables>)
        ensures
            r.operation_name@ == "GetAgents"@,
            r.query@.len() == 0,
            r.variables == variables,
    {
        QueryBody {
            operation_name: String::from_str("GetAgents"),
            query: String::new(),
            variables,
        }
    }
}

/// The legacy user/robot/session listing.
#[derive(Debug, Clone)]
pub struct GetURS;

impl GetURS {
    /// Pair the operation's name with its variables; the document text is
    /// left for the transport layer to fill in.
    pub fn build_query(variables: GetURSVariables) -> (r: QueryBody<GetURSVariables>)
        ensures
            r.operation_name@ == "GetURS"@,
            r.query@.len() == 0,
            r.variables == variables,
    {
        QueryBody {
            operation_name: String::from_str("GetURS"),
            query: String::new(),
            variables,
        }
    }
}

/// List models by label fragment.
#[derive(Debug, Clone)]
pub struct ListModels;

impl ListModels {
    /// Pair the operation's name with its variables; the document text is
    /// left for the transport layer to fill in.
    pub fn build_query(variables: ListModelsVariables) -> (r: QueryBody<ListModelsVariables>)
        ensures
            r.operation_name@ == "ListModels"@,
            r.query@.len() == 0,
            r.variables == variables,
    {
        QueryBody {
            operation_name: String::from_str("ListModels"),
            query: String::new(),
            variables,
        }
    }
}

/// List models together with their graphs.
#[derive(Debug, Clone)]
pub struct ListModelsGraphs;

impl ListModelsGraphs {
    /// Pair the operation's name with its variables; the document text is
    /// left for the transport layer to fill in.
    pub fn build_query(variables: ListModelsGraphsVariables) -> (r: QueryBody<ListModelsGraphsVariables>)
        ensures
            r.operation_name@ == "ListModelsGraphs"@,
            r.query@.len() == 0,
            r.variables == variables,
    {
        QueryBody {
            operation_name: String::from_str("ListModelsGraphs"),
            query: String::new(),
            variables,
        }
    }
}

/// Read the blob entry metadata of an agent.
#[derive(Debug, Clone)]
pub struct GetAgentEntriesMetadata;

impl GetAgentEntriesMetadata {
    /// Pair the operation's name with its variables; the document text is
    /// left for the transport layer to fill in.
    pub fn build_query(variables: GetAgentEntriesMetadataVariables) -> (r: QueryBody<GetAgentEntriesMetadataVariables>)
        ensures
            r.operation_name@ == "GetAgentEntriesMetadata"@,
            r.query@.len() == 0,
            r.variables == variables,
    {
        QueryBody {
            operation_name: String::from_str("GetAgentEntriesMetadata"),
            query: String::new(),
            variables,
        }
    }
}

/// Create a blob download.
#[derive(Debug, Clone)]
pub struct CreateDownload;

impl CreateDownload {
    /// Pair the operation's name with its variables; the document text is
    /// left for the transport layer to fill in.
    pub fn build_query(variables: CreateDownloadVariables) -> (r: QueryBody<CreateDownloadVariables>)
        ensures
            r.operation_name@ == "CreateDownload"@,
            r.query@.len() == 0,
            r.variables == variables,
    {
        QueryBody {
            operation_name: String::from_str("CreateDownload"),
            query: String::new(),
            variables,
        }
    }
}

/// Create a blob upload.
#[derive(Debug, Clone)]
pub struct CreateUpload;

impl CreateUpload {
    /// Pair the operation's name with its variables; the document text is
    /// left for the transport layer to fill in.
    pub fn build_query(variables: CreateUploadVariables) -> (r: QueryBody<CreateUploadVariables>)
        ensures
            r.operation_name@ == "CreateUpload"@,
            r.query@.len() == 0,
            r.variables == variables,
    {
        QueryBody {
            operation_name: String::from_str("CreateUpload"),
            query: String::new(),
            variables,
        }
    }
}

/// Complete a blob upload.
#[derive(Debug, Clone)]
pub struct CompleteUpload;

impl CompleteUpload {
    /// Pair the operation's name with its variables; the document text is
    /// left for the transport layer to fill in.
    pub fn build_query(variables: CompleteUploadVariables) -> (r: QueryBody<CompleteUploadVariables>)
        ensures
            r.operation_name@ == "CompleteUpload"@,
            r.query@.len() == 0,
            r.variables == variables,
    {
        QueryBody {
            operation_name: String::from_str("CompleteUpload"),
            query: String::new(),
            variables,
        }
    }
}

/// Start a remote worker.
#[derive(Debug, Clone)]
pub struct StartWorker;

impl StartWorker {
    /// Pair the operation's name with its variables; the document text is
    /// left for the transport layer to fill in.
    pub fn build_query(variables: StartWorkerVariables) -> (r: QueryBody<StartWorkerVariables>)
        ensures
            r.operation_name@ == "StartWorker"@,
            r.query@.len() == 0,
            r.variables == variables,
    {
        QueryBody {
            operation_name: String::from_str("StartWorker"),
            query: String::new(),
            variables,
        }
    }
}

/// Read one variable of a factor graph.
#[derive(Debug, Clone)]
pub struct GetVariable;

impl GetVariable {
    /// Pair the operation's name with its variables; the document text is
    /// left for the transport layer to fill in.
    pub fn build_query(variables: GetVariableVariables) -> (r: QueryBody<GetVariableVariables>)
        ensures
            r.operation_name@ == "GetVariable"@,
            r.query@.len() == 0,
            r.variables == variables,
    {
        QueryBody {
            operation_name: String::from_str("GetVariable"),
            query: String::new(),
            variables,
        }
    }
}

/// List the variable labels of a factor graph.
#[derive(Debug, Clone)]
pub struct ListVariables;

impl ListVariables {
    /// Pair the operation's name with its variables; the document text is
    /// left for the transport layer to fill in.
    pub fn build_query(variables: ListVariablesVariables) -> (r: QueryBody<ListVariablesVariables>)
        ensures
            r.operation_name@ == "ListVariables"@,
            r.query@.len() == 0,
            r.variables == variables,
    {
        QueryBody {
            operation_name: String::from_str("ListVariables"),
            query: String::new(),
            variables,
        }
    }
}

/// Add a variable to a factor graph.
#[derive(Debug, Clone)]
pub struct AddVariable;

impl AddVariable {
    /// Pair the operation's name with its variables; the document text is
    /// left for the transport layer to fill in.
    pub fn build_query(variables: AddVariableVariables) -> (r: QueryBody<AddVariableVariables>)
        ensures
            r.operation_name@ == "AddVariable"@,
            r.query@.len() == 0,
            r.variables == variables,
    {
        QueryBody {
            operation_name: String::from_str("AddVariable"),
            query: String::new(),
            variables,
        }
    }
}

/// Attach a blob entry to an agent.
#[derive(Debug, Clone)]
pub struct AddBlobEntryAgent;

impl AddBlobEntryAgent {
    /// Pair the operation's name with its variables; the document text is
    /// left for the transport layer to fill in.
    pub fn build_query(variables: AddBlobEntryAgentVariables) -> (r: QueryBody<AddBlobEntryAgentVariables>)
        ensures
            r.operation_name@ == "AddBlobEntryAgent"@,
            r.query@.len() == 0,
            r.variables == variables,
    {
        QueryBody {
            operation_name: String::from_str("AddBlobEntryAgent"),
            query: String::new(),
            variables,
        }
    }
}

/// Attach a blob entry to a model.
#[derive(Debug, Clone)]
pub struct AddBlobEntryModel;

impl AddBlobEntryModel {
    /// Pair the operation's name with its variables; the document text is
    /// left for the transport layer to fill in.
    pub fn build_query(variables: AddBlobEntryModelVariables) -> (r: QueryBody<AddBlobEntryModelVariables>)
        ensures
            r.operation_name@ == "AddBlobEntryModel"@,
            r.query@.len() == 0,
            r.variables == variables,
    {
        QueryBody {
            operation_name: String::from_str("AddBlobEntryModel"),
            query: String::new(),
            variables,
        }
    }
}

/// Delete a blob entry by identifier.
#[derive(Debug, Clone)]
pub struct DeleteBlobEntry;

impl DeleteBlobEntry {
    /// Pair the operation's name with its variables; the document text is
    /// left for the transport layer to fill in.
    pub fn build_query(variables: DeleteBlobEntryVariables) -> (r: QueryBody<DeleteBlobEntryVariables>)
        ensures
            r.operation_name@ == "DeleteBlobEntry"@,
            r.query@.len() == 0,
            r.variables == variables,
    {
        QueryBody {
            operation_name: String::from_str("DeleteBlobEntry"),
            query: String::new(),
            variables,
        }
    }
}

/// Delete a blob from a store.
#[derive(Debug, Clone)]
pub struct DeleteBlob;

impl DeleteBlob {
    /// Pair the operation's name with its variables; the document text is
    /// left for the transport layer to fill in.
    pub fn build_query(variables: DeleteBlobVariables) -> (r: QueryBody<DeleteBlobVariables>)
        ensures
            r.operation_name@ == "DeleteBlob"@,
            r.query@.len() == 0,
            r.variables == variables,
    {
        QueryBody {
            operation_name: String::from_str("DeleteBlob"),
            query: String::new(),
            variables,
        }
    }
}

/// Read the caller's organization.
#[derive(Debug, Clone)]
pub struct GetOrg;

impl GetOrg {
    /// Pair the operation's name with its variables; the document text is
    /// left for the transport layer to fill in.
    pub fn build_query(variables: GetOrgVariables) -> (r: QueryBody<GetOrgVariables>)
        ensures
            r.operation_name@ == "GetOrg"@,
            r.query@.len() == 0,
            r.variables == variables,
    {
        QueryBody {
            operation_name: String::from_str("GetOrg"),
            query: String::new(),
            variables,
        }
    }
}

/// List the factor graphs of an organization.
#[derive(Debug, Clone)]
pub struct ListGraphs;

impl ListGraphs {
    /// Pair the operation's name with its variables; the document text is
    /// left for the transport layer to fill in.
    pub fn build_query(variables: ListGraphsVariables) -> (r: QueryBody<ListGraphsVariables>)
        ensures
            r.operation_name@ == "ListGraphs"@,
            r.query@.len() == 0,
            r.variables == variables,
    {
        QueryBody {
            operation_name: String::from_str("ListGraphs"),
            query: String::new(),
            variables,
        }
    }
}

/// Add an agent to an organization.
#[derive(Debug, Clone)]
pub struct AddAgent;

impl AddAgent {
    /// Pair the operation's name with its variables; the document text is
    /// left for the transport layer to fill in.
    pub fn build_query(variables: AddAgentVariables) -> (r: QueryBody<AddAgentVariables>)
        ensures
            r.operation_name@ == "AddAgent"@,
            r.query@.len() == 0,
            r.variables == variables,
    {
        QueryBody {
            operation_name: String::from_str("AddAgent"),
            query: String::new(),
            variables,
        }
    }
}

/// Add a model to an organization.
#[derive(Debug, Clone)]
pub struct AddModel;

impl AddModel {
    /// Pair the operation's name with its variables; the document text is
    /// left for the transport layer to fill in.
    pub fn build_query(variables: AddModelVariables) -> (r: QueryBody<AddModelVariables>)
        ensures
            r.operation_name@ == "AddModel"@,
            r.query@.len() == 0,
            r.variables == variables,
    {
        QueryBody {
            operation_name: String::from_str("AddModel"),
            query: String::new(),
            variables,
        }
    }
}

/// Replace a blob entry's metadata.
#[derive(Debug, Clone)]
pub struct UpdateBlobentryMetadata;

impl UpdateBlobentryMetadata {
    /// Pair the operation's name with its variables; the document text is
    /// left for the transport layer to fill in.
    pub fn build_query(variables: UpdateBlobentryMetadataVariables) -> (r: QueryBody<UpdateBlobentryMetadataVariables>)
        ensures
            r.operation_name@ == "UpdateBlobentryMetadata"@,
            r.query@.len() == 0,
            r.variables == variables,
    {
        QueryBody {
            operation_name: String::from_str("UpdateBlobentryMetadata"),
            query: String::new(),
            variables,
        }
    }
}

/// Add a factor graph to an organization.
#[derive(Debug, Clone)]
pub struct AddFactorgraph;

impl AddFactorgraph {
    /// Pair the operation's name with its variables; the document text is
    /// left for the transport layer to fill in.
    pub fn build_query(variables: AddFactorgraphVariables) -> (r: QueryBody<AddFactorgraphVariables>)
        ensures
            r.operation_name@ == "AddFactorgraph"@,
            r.query@.len() == 0,
            r.variables == variables,
    {
        QueryBody {
            operation_name: String::from_str("AddFactorgraph"),
            query: String::new(),
            variables,
        }
    }
}

/// Link a factor graph to an agent.
#[derive(Debug, Clone)]
pub struct ConnectGraphAgent;

impl ConnectGraphAgent {
    /// Pair the operation's name with its variables; the document text is
    /// left for the transport layer to fill in.
    pub fn build_query(variables: ConnectGraphAgentVariables) -> (r: QueryBody<ConnectGraphAgentVariables>)
        ensures
            r.operation_name@ == "ConnectGraphAgent"@,
            r.query@.len() == 0,
            r.variables == variables,
    {
        QueryBody {
            operation_name: String::from_str("ConnectGraphAgent"),
            query: String::new(),
            variables,
        }
    }
}

/// Find model/graph pairs of an organization.
#[derive(Debug, Clone)]
pub struct FindOrgModelGraphs;

impl FindOrgModelGraphs {
    /// Pair the operation's name with its variables; the document text is
    /// left for the transport layer to fill in.
    pub fn build_query(variables: FindOrgModelGraphsVariables) -> (r: QueryBody<FindOrgModelGraphsVariables>)
        ensures
            r.operation_name@ == "FindOrgModelGraphs"@,
            r.query@.len() == 0,
            r.variables == variables,
    {
        QueryBody {
            operation_name: String::from_str("FindOrgModelGraphs"),
            query: String::new(),
            variables,
        }
    }
}

/// Attach a blob entry to a factor graph.
#[derive(Debug, Clone)]
pub struct AddFactorgraphBlobEntry;

impl AddFactorgraphBlobEntry {
    /// Pair the operation's name with its variables; the document text is
    /// left for the transport layer to fill in.
    pub fn build_query(variables: AddFactorgraphBlobEntryVariables) -> (r: QueryBody<
        AddFactorgraphBlobEntryVariables,
    >)
        ensures
            r.operation_name@ == "AddFactorgraphBlobEntry"@,
            r.query@.len() == 0,
            r.variables == variables,
    {
        QueryBody {
            operation_name: String::from_str("AddFactorgraphBlobEntry"),
            query: String::new(),
            variables,
        }
    }
}

/// Build the request body for listing an organization's agent labels.
pub fn list_agents_query(nvacl: &NavAbilityClient) -> (r: QueryBody<ListAgentsVariables>)
    ensures
        r.operation_name@ == "ListAgents"@,
        r.variables.org_id@ == nvacl.user_label@,
{
    ListAgents::build_query(ListAgentsVariables { org_id: nvacl.user_label.clone() })
}

/// Build the request body for reading agents; a given label narrows the
/// read to the agent with the matching derived identifier, and the full
/// columns are always requested.
pub fn get_agents_query(nvacl: &NavAbilityClient, agent_label: Option<&str>) -> (r: QueryBody<
    GetAgentsVariables,
>)
    requires
        agent_label is Some ==> nvacl.id_wf(),
    ensures
        r.operation_name@ == "GetAgents"@,
        r.variables.org_id@ == nvacl.user_label@,
        (match agent_label {
            Some(lb) => r.variables.agent_id matches Some(aid) && aid@ == ascii_chars(
                uuid_text(nvacl.id_spec(lb@).0, nvacl.id_spec(lb@).1),
            ),
            None => r.variables.agent_id is None,
        }),
        r.variables.full == Some(true),
{
    let agent_id = match agent_label {
        Some(agl) => Some(nvacl.getId(agl).hyphenated()),
        None => None,
    };
    GetAgents::build_query(
        GetAgentsVariables { org_id: nvacl.user_label.clone(), agent_id, full: Some(true) },
    )
}

/// Build the request body for adding an agent: the agent's identifier is
/// derived from the organization namespace and the label.
pub fn add_agent_query(nvacl: &NavAbilityClient, agent_label: &String) -> (r: QueryBody<
    AddAgentVariables,
>)
    requires
        nvacl.id_wf(),
    ensures
        r.operation_name@ == "AddAgent"@,
        r.variables.agent_id@ == ascii_chars(
            uuid_text(nvacl.id_spec(agent_label@).0, nvacl.id_spec(agent_label@).1),
        ),
        r.variables.label@ == agent_label@,
        r.variables.version@ == SDK_VERSION@,
        r.variables.org_id@ == nvacl.user_label@,
{
    let agent_id = nvacl.getId(agent_label.as_str()).hyphenated();
    AddAgent::build_query(
        AddAgentVariables {
            agent_id,
            label: agent_label.clone(),
            version: SDK_VERSION.to_owned(),
            org_id: nvacl.user_label.clone(),
        },
    )
}

/// Build the request body for replacing an agent's metadata; the agent is
/// addressed by its derived identifier.
pub fn update_agent_metadata_query(
    nvacl: &NavAbilityClient,
    agent_label: &String,
    metadata: &String,
) -> (r: QueryBody<UpdateAgentMetadataVariables>)
    requires
        nvacl.id_wf(),
    ensures
        r.operation_name@ == "UpdateAgentMetadata"@,
        r.variables.id@ == ascii_chars(
            uuid_text(nvacl.id_spec(agent_label@).0, nvacl.id_spec(agent_label@).1),
        ),
        r.variables.metadata@ == metadata@,
{
    let id = nvacl.getId(agent_label.as_str()).hyphenated();
    UpdateAgentMetadata::build_query(
        UpdateAgentMetadataVariables { id, metadata: metadata.clone() },
    )
}

/// Build the request body for reading an agent's blob entry metadata; a
/// missing MIME filter matches everything.
pub fn get_agent_entries_metadata_query(
    nvacl: &NavAbilityClient,
    agent_label: String,
    mime_type: Option<String>,
) -> (r: QueryBody<GetAgentEntriesMetadataVariables>)
    ensures
        r.operation_name@ == "GetAgentEntriesMetadata"@,
        r.variables.org_id@ == nvacl.user_label@,
        r.variables.agent_label@ == agent_label@,
        r.variables.mime_type_contains matches Some(m) && m@ == (match mime_type {
            Some(mt) => mt@,
            None => ""@,
        }),
{
    let mime_type_contains = match mime_type {
        Some(mt) => Some(mt),
        None => Some("".to_owned()),
    };
    GetAgentEntriesMetadata::build_query(
        GetAgentEntriesMetadataVariables {
            org_id: nvacl.user_label.clone(),
            agent_label,
            mime_type_contains,
        },
    )
}

/// What the shared blob-entry attachment variables promise: the entry's
/// identifier is derived from the owner's label run together with the
/// entry's label, the size is spelled in decimal, empty metadata falls
/// back to `"e30="` (base64 for `{}`), and the other columns copy the
/// entry.
pub open spec fn entry_vars_post(
    entry_id: Seq<char>,
    entry_label: Seq<char>,
    blob_id: Seq<char>,
    blobstore: Option<String>,
    origin: Option<String>,
    mime_type: Option<String>,
    metadata: Seq<char>,
    description: Option<String>,
    hash: Seq<char>,
    size: Option<String>,
    org_id: (u64, u64),
    owner_label: Seq<char>,
    entry: BlobEntry,
) -> bool {
    &&& entry_id == v5_text(org_id.0, org_id.1, encode_utf8(owner_label + entry.label@))
    &&& entry_label == entry.label@
    &&& blob_id == uuid_str(entry.blob_id)
    &&& blobstore matches Some(b) && b@ == entry.blobstore@
    &&& origin matches Some(o) && o@ == entry.origin@
    &&& mime_type matches Some(m) && m@ == entry.mime_type@
    &&& metadata == (if entry.metadata@.len() == 0 {
        "e30="@
    } else {
        entry.metadata@
    })
    &&& description matches Some(d) && d@ == entry.description@
    &&& hash == entry.hash@
    &&& (match entry.size {
        Some(sz) => size matches Some(s) && s@ == ascii_chars(dec_digits_signed(sz as int)),
        None => size is None,
    })
}

/// Build the request body for attaching a blob entry to an agent.
pub fn add_blob_entry_agent_query(
    nvacl: &NavAbilityClient,
    agent_label: &String,
    entry: &BlobEntry,
) -> (r: QueryBody<AddBlobEntryAgentVariables>)
    requires
        nvacl.id_wf(),
        entry.timestamp.displayable(),
    ensures
        r.operation_name@ == "AddBlobEntryAgent"@,
        r.variables.agent_label@ == agent_label@,
        entry_vars_post(
            r.variables.entry_id@,
            r.variables.entry_label@,
            r.variables.blob_id@,
            r.variables.blobstore,
            r.variables.origin,
            r.variables.mime_type,
            r.variables.metadata@,
            r.variables.description,
            r.variables.hash@,
            r.variables.size,
            crate::ids::uuid_text_value(encode_utf8(nvacl.user_label@)),
            agent_label@,
            *entry,
        ),
        r.variables.timestamp matches Some(t) && t@ == crate::time::chrono_display_of(
            entry.timestamp.secs,
            entry.timestamp.nanos,
        ),
{
    let parts = blob_entry_variable_parts(nvacl, agent_label, entry);
    AddBlobEntryAgent::build_query(
        AddBlobEntryAgentVariables {
            agent_label: agent_label.clone(),
            entry_id: parts.entry_id,
            entry_label: parts.entry_label,
            blob_id: parts.blob_id,
            blobstore: parts.blobstore,
            origin: parts.origin,
            mime_type: parts.mime_type,
            metadata: parts.metadata,
            description: parts.description,
            hash: parts.hash,
            size: parts.size,
            timestamp: parts.timestamp,
        },
    )
}

/// Build the request body for attaching a blob entry to a model.
pub fn add_blob_entry_model_query(
    nvacl: &NavAbilityClient,
    model_label: &String,
    entry: &BlobEntry,
) -> (r: QueryBody<AddBlobEntryModelVariables>)
    requires
        nvacl.id_wf(),
        entry.timestamp.displayable(),
    ensures
        r.operation_name@ == "AddBlobEntryModel"@,
        r.variables.model_label@ == model_label@,
        entry_vars_post(
            r.variables.entry_id@,
            r.variables.entry_label@,
            r.variables.blob_id@,
            r.variables.blobstore,
            r.variables.origin,
            r.variables.mime_type,
            r.variables.metadata@,
            r.variables.description,
            r.variables.hash@,
            r.variables.size,
            crate::ids::uuid_text_value(encode_utf8(nvacl.user_label@)),
            model_label@,
            *entry,
        ),
        r.variables.timestamp matches Some(t) && t@ == crate::time::chrono_display_of(
            entry.timestamp.secs,
            entry.timestamp.nanos,
        ),
{
    let parts = blob_entry_variable_parts(nvacl, model_label, entry);
    AddBlobEntryModel::build_query(
        AddBlobEntryModelVariables {
            model_label: model_label.clone(),
            entry_id: parts.entry_id,
            entry_label: parts.entry_label,
            blob_id: parts.blob_id,
            blobstore: parts.blobstore,
            origin: parts.origin,
            mime_type: parts.mime_type,
            metadata: parts.metadata,
            description: parts.description,
            hash: parts.hash,
            size: parts.size,
            timestamp: parts.timestamp,
        },
    )
}

/// Build the request body for attaching a blob entry to a factor graph.
pub fn add_blob_entry_graph_query(
    nvacl: &NavAbilityClient,
    fg_label: &String,
    entry: &BlobEntry,
) -> (r: QueryBody<AddFactorgraphBlobEntryVariables>)
    requires
        nvacl.id_wf(),
        entry.timestamp.displayable(),
    ensures
        r.operation_name@ == "AddFactorgraphBlobEntry"@,
        r.variables.fg_label@ == fg_label@,
        entry_vars_post(
            r.variables.entry_id@,
            r.variables.entry_label@,
            r.variables.blob_id@,
            r.variables.blobstore,
            r.variables.origin,
            r.variables.mime_type,
            r.variables.metadata@,
            r.variables.description,
            r.variables.hash@,
            r.variables.size,
            crate::ids::uuid_text_value(encode_utf8(nvacl.user_label@)),
            fg_label@,
            *entry,
        ),
        r.variables.timestamp matches Some(t) && t@ == crate::time::chrono_display_of(
            entry.timestamp.secs,
            entry.timestamp.nanos,
        ),
{
    let parts = blob_entry_variable_parts(nvacl, fg_label, entry);
    AddFactorgraphBlobEntry::build_query(
        AddFactorgraphBlobEntryVariables {
            fg_label: fg_label.clone(),
            entry_id: parts.entry_id,
            entry_label: parts.entry_label,
            blob_id: parts.blob_id,
            blobstore: parts.blobstore,
            origin: parts.origin,
            mime_type: parts.mime_type,
            metadata: parts.metadata,
            description: parts.description,
            hash: parts.hash,
            size: parts.size,
            timestamp: parts.timestamp,
        },
    )
}

/// The shared columns of a blob-entry attachment request.
struct EntryVariableParts {
    entry_id: String,
    entry_label: String,
    blob_id: String,
    blobstore: Option<String>,
    origin: Option<String>,
    mime_type: Option<String>,
    metadata: String,
    description: Option<String>,
    hash: String,
    size: Option<String>,
    timestamp: Option<String>,
}

/// Assemble the shared columns of a blob-entry attachment request.
fn blob_entry_variable_parts(
    nvacl: &NavAbilityClient,
    owner_label: &String,
    entry: &BlobEntry,
) -> (r: EntryVariableParts)
    requires
        nvacl.id_wf(),
        entry.timestamp.displayable(),
    ensures
        entry_vars_post(
            r.entry_id@,
            r.entry_label@,
            r.blob_id@,
            r.blobstore,
            r.origin,
            r.mime_type,
            r.metadata@,
            r.description,
            r.hash@,
            r.size,
            crate::ids::uuid_text_value(encode_utf8(nvacl.user_label@)),
            owner_label@,
            *entry,
        ),
        r.timestamp matches Some(t) && t@ == crate::time::chrono_display_of(
            entry.timestamp.secs,
            entry.timestamp.nanos,
        ),
{
    let name = owner_label.clone().concat(entry.label.as_str());
    let entry_id = nvacl.getId(name.as_str()).hyphenated();
    let size: Option<String> = match entry.size {
        Some(sz) => Some(i64_dec_string(sz)),
        None => None,
    };
    let metadata = if entry.metadata.as_str().unicode_len() == 0 {
        "e30=".to_owned()
    } else {
        entry.metadata.clone()
    };
    proof {
        if entry.metadata@.len() != 0 {
            assert(metadata@ == entry.metadata@);
        }
    }
    EntryVariableParts {
        entry_id,
        entry_label: entry.label.clone(),
        blob_id: entry.blob_id.hyphenated(),
        blobstore: Some(entry.blobstore.clone()),
        origin: Some(entry.origin.clone()),
        mime_type: Some(entry.mime_type.clone()),
        metadata,
        description: Some(entry.description.clone()),
        hash: entry.hash.clone(),
        size,
        timestamp: Some(entry.timestamp.display_string()),
    }
}

/// Build the request body for reading one blob entry by identifier.
pub fn get_blob_entry_query(id: &Uuid) -> (r: QueryBody<GetBlobEntryVariables>)
    ensures
        r.operation_name@ == "GetBlobEntry"@,
        r.variables.entry_id@ == uuid_str(*id),
{
    GetBlobEntry::build_query(GetBlobEntryVariables { entry_id: id.hyphenated() })
}

/// Build the request body for deleting a blob entry by identifier.
pub fn delete_blobentry_query(id: &Uuid) -> (r: QueryBody<DeleteBlobEntryVariables>)
    ensures
        r.operation_name@ == "DeleteBlobEntry"@,
        r.variables.id@ == uuid_str(*id),
{
    DeleteBlobEntry::build_query(DeleteBlobEntryVariables { id: id.hyphenated() })
}

/// Build the request body for replacing a blob entry's metadata.
pub fn update_blobentry_metadata_query(id: &Uuid, metadata_b64: &str) -> (r: QueryBody<
    UpdateBlobentryMetadataVariables,
>)
    ensures
        r.operation_name@ == "UpdateBlobentryMetadata"@,
        r.variables.id@ == uuid_str(*id),
        r.variables.metadata@ == metadata_b64@,
{
    UpdateBlobentryMetadata::build_query(
        UpdateBlobentryMetadataVariables { id: id.hyphenated(), metadata: metadata_b64.to_owned() },
    )
}

/// Build the request body for creating a blob download; a missing store
/// label falls back to `"default"`.
pub fn create_download_query(blob_id: &Uuid, store: Option<String>) -> (r: QueryBody<
    CreateDownloadVariables,
>)
    ensures
        r.operation_name@ == "CreateDownload"@,
        r.variables.blob_id@ == uuid_str(*blob_id),
        r.variables.store@ == (match store {
            Some(s) => s@,
            None => "default"@,
        }),
{
    let store_s = match store {
        Some(s) => s,
        None => "default".to_owned(),
    };
    CreateDownload::build_query(
        CreateDownloadVariables { blob_id: blob_id.hyphenated(), store: store_s },
    )
}

/// Build the request body for creating a blob upload; a missing part
/// count means a single-part upload.
pub fn create_upload_query(blob_id: &Uuid, parts: Option<i64>) -> (r: QueryBody<
    CreateUploadVariables,
>)
    ensures
        r.operation_name@ == "CreateUpload"@,
        r.variables.blob_id@ == uuid_str(*blob_id),
        r.variables.parts == (match parts {
            Some(p) => p,
            None => 1i64,
        }),
{
    CreateUpload::build_query(
        CreateUploadVariables {
            blob_id: blob_id.hyphenated(),
            parts: match parts {
                Some(p) => p,
                None => 1,
            },
        },
    )
}

/// Build the request body for completing a blob upload: part `i` of the
/// report carries entity tag `i` and is numbered `i + 1`, as the upload
/// protocol counts parts from one.
pub fn complete_upload_query(blob_id: &Uuid, upload_id: String, etags: Vec<String>) -> (r:
    QueryBody<CompleteUploadVariables>)
    requires
        etags@.len() < 0x7fff_ffff_ffff_ffff,
    ensures
        r.operation_name@ == "CompleteUpload"@,
        r.variables.blob_id@ == uuid_str(*blob_id),
        r.variables.completed_upload.upload_id@ == upload_id@,
        r.variables.completed_upload.parts@.len() == etags@.len(),
        forall|i: int|
            0 <= i < etags@.len() ==> (#[trigger] r.variables.completed_upload.parts@[i]
                matches Some(p) && {
                &&& p.part_number == i + 1
                &&& (p.e_tag matches Some(t) && t@ == etags@[i]@)
            }),
{
    let mut parts: Vec<Option<CompletedUploadPartInput>> = Vec::new();
    let n = etags.len();
    let mut i: usize = 0;
    while i < n
        invariant
            n == etags@.len(),
            n < 0x7fff_ffff_ffff_ffff,
            i <= n,
            parts@.len() == i,
            forall|k: int|
                0 <= k < i ==> (#[trigger] parts@[k] matches Some(p) && {
                    &&& p.part_number == k + 1
                    &&& (p.e_tag matches Some(t) && t@ == etags@[k]@)
                }),
        decreases n - i,
    {
        parts.push(
            Some(
                CompletedUploadPartInput {
                    part_number: (i as i64) + 1,
                    e_tag: Some(etags[i].clone()),
                },
            ),
        );
        i += 1;
    }
    CompleteUpload::build_query(
        CompleteUploadVariables {
            blob_id: blob_id.hyphenated(),
            completed_upload: CompletedUploadInput { upload_id, parts },
        },
    )
}

/// Build the request body for deleting a blob; a missing store label
/// falls back to `"default"`.
pub fn delete_blob_query(blob_id: &Uuid, label: Option<&str>) -> (r: QueryBody<
    DeleteBlobVariables,
>)
    ensures
        r.operation_name@ == "DeleteBlob"@,
        r.variables.blob_id@ == uuid_str(*blob_id),
        r.variables.label matches Some(s) && s@ == (match label {
            Some(lb) => lb@,
            None => "default"@,
        }),
{
    let store = match label {
        Some(lb) => lb.to_owned(),
        None => "default".to_owned(),
    };
    DeleteBlob::build_query(
        DeleteBlobVariables { blob_id: blob_id.hyphenated(), label: Some(store) },
    )
}

/// Build the request body for listing the factor graphs reachable from an
/// organization label.
pub fn list_graphs_query(nvacl: &NavAbilityClient) -> (r: QueryBody<ListGraphsVariables>)
    ensures
        r.operation_name@ == "ListGraphs"@,
        r.variables.id@ == nvacl.user_label@,
{
    ListGraphs::build_query(ListGraphsVariables { id: nvacl.user_label.clone() })
}

/// Build the request body for adding a factor graph: the graph's
/// identifier is derived from the organization namespace and the label.
pub fn add_factorgraph_query(
    nvacl: &NavAbilityClient,
    label: &str,
    description: &str,
    metadata: &str,
) -> (r: QueryBody<AddFactorgraphVariables>)
    requires
        nvacl.id_wf(),
    ensures
        r.operation_name@ == "AddFactorgraph"@,
        r.variables.org_id matches Some(o) && o@ == nvacl.user_label@,
        r.variables.id matches Some(gid) && gid@ == ascii_chars(
            uuid_text(nvacl.id_spec(label@).0, nvacl.id_spec(label@).1),
        ),
        r.variables.label matches Some(lb) && lb@ == label@,
        r.variables.description matches Some(d) && d@ == description@,
        r.variables.metadata matches Some(m) && m@ == metadata@,
        r.variables.version matches Some(v) && v@ == SDK_VERSION@,
{
    let gid = nvacl.getId(label).hyphenated();
    AddFactorgraph::build_query(
        AddFactorgraphVariables {
            org_id: Some(nvacl.user_label.clone()),
            id: Some(gid),
            label: Some(label.to_owned()),
            description: Some(description.to_owned()),
            metadata: Some(metadata.to_owned()),
            version: Some(SDK_VERSION.to_owned()),
        },
    )
}

/// Build the request body for linking a graph to an agent, both addressed
/// by their derived identifiers.
pub fn connect_graph_agent_query(nvacl: &NavAbilityClient, graph: &str, agent: &str) -> (r:
    QueryBody<ConnectGraphAgentVariables>)
    requires
        nvacl.id_wf(),
    ensures
        r.operation_name@ == "ConnectGraphAgent"@,
        r.variables.fg_id@ == ascii_chars(
            uuid_text(nvacl.id_spec(graph@).0, nvacl.id_spec(graph@).1),
        ),
        r.variables.agent_id@ == ascii_chars(
            uuid_text(nvacl.id_spec(agent@).0, nvacl.id_spec(agent@).1),
        ),
{
    let gid = nvacl.getId(graph).hyphenated();
    let aid = nvacl.getId(agent).hyphenated();
    ConnectGraphAgent::build_query(ConnectGraphAgentVariables { fg_id: gid, agent_id: aid })
}

/// Build the request body for finding model/graph pairs by label
/// fragments.
pub fn find_org_model_fgs_query(
    nvacl: &NavAbilityClient,
    model_label_contains: Option<String>,
    fg_label_contains: Option<String>,
) -> (r: QueryBody<FindOrgModelGraphsVariables>)
    ensures
        r.operation_name@ == "FindOrgModelGraphs"@,
        r.variables.org_id@ == nvacl.user_label@,
        r.variables.model_label_contains == model_label_contains,
        r.variables.fg_label_contains == fg_label_contains,
{
    FindOrgModelGraphs::build_query(
        FindOrgModelGraphsVariables {
            org_id: nvacl.user_label.clone(),
            model_label_contains,
            fg_label_contains,
        },
    )
}

/// Build the request body for listing models; a missing fragment matches
/// everything.
pub fn list_models_query(model_label_contains: Option<&str>) -> (r: QueryBody<
    ListModelsVariables,
>)
    ensures
        r.operation_name@ == "ListModels"@,
        r.variables.label_contains matches Some(m) && m@ == (match model_label_contains {
            Some(s) => s@,
            None => ""@,
        }),
{
    let label_contains = match model_label_contains {
        Some(mt) => Some(mt.to_owned()),
        None => Some("".to_owned()),
    };
    ListModels::build_query(ListModelsVariables { label_contains })
}

/// Build the request body for listing models with their graphs; a missing
/// fragment matches everything.
pub fn list_model_graphs_query(model_label_contains: Option<&str>) -> (r: QueryBody<
    ListModelsGraphsVariables,
>)
    ensures
        r.operation_name@ == "ListModelsGraphs"@,
        r.variables.label_contains matches Some(m) && m@ == (match model_label_contains {
            Some(s) => s@,
            None => ""@,
        }),
{
    let label_contains = match model_label_contains {
        Some(mt) => Some(mt.to_owned()),
        None => Some("".to_owned()),
    };
    ListModelsGraphs::build_query(ListModelsGraphsVariables { label_contains })
}

/// Build the request body for adding a model: the model's identifier is
/// derived from the organization namespace and the label.
pub fn add_model_query(nvacl: &NavAbilityClient, model_label: &String) -> (r: QueryBody<
    AddModelVariables,
>)
    requires
        nvacl.id_wf(),
    ensures
        r.operation_name@ == "AddModel"@,
        r.variables.org_id@ == nvacl.user_label@,
        r.variables.model_id@ == ascii_chars(
            uuid_text(nvacl.id_spec(model_label@).0, nvacl.id_spec(model_label@).1),
        ),
        r.variables.label@ == model_label@,
        r.variables.tags matches Some(t) && t@.len() == 0,
{
    let model_id = nvacl.getId(model_label.as_str()).hyphenated();
    AddModel::build_query(
        AddModelVariables {
            org_id: nvacl.user_label.clone(),
            model_id,
            label: model_label.clone(),
            tags: Some(Vec::new()),
        },
    )
}

/// Build the request body for the legacy user/robot/session listing.
pub fn get_urs_query(nvacl: &NavAbilityClient) -> (r: QueryBody<GetURSVariables>)
    ensures
        r.operation_name@ == "GetURS"@,
        r.variables.org_id@ == nvacl.user_label@,
{
    GetURS::build_query(GetURSVariables { org_id: nvacl.user_label.clone() })
}

/// Build the request body for reading the caller's organization.
pub fn get_org_query() -> (r: QueryBody<GetOrgVariables>)
    ensures
        r.operation_name@ == "GetOrg"@,
{
    GetOrg::build_query(GetOrgVariables {})
}

/// Build the request body for starting a remote worker.
pub fn start_worker_query(input: &str, worker_label: String) -> (r: QueryBody<
    StartWorkerVariables,
>)
    ensures
        r.operation_name@ == "StartWorker"@,
        r.variables.input@ == input@,
        r.variables.worker_label@ == worker_label@,
{
    StartWorker::build_query(
        StartWorkerVariables { input: input.to_owned(), worker_label },
    )
}

/// Build the request body for reading one variable of a factor graph by
/// label; the summary columns are always requested.
pub fn get_variable_query(nvafg: &NavAbilityDFG, label: &str, fields_full: bool) -> (r: QueryBody<
    GetVariableVariables,
>)
    ensures
        r.operation_name@ == "GetVariable"@,
        r.variables.var_id@ == ascii_chars(
            uuid_text(nvafg.fg.id_spec(label@).0, nvafg.fg.id_spec(label@).1),
        ),
        r.variables.fields_summary == true,
        r.variables.fields_full == fields_full,
{
    let id = nvafg.fg.getId(label).hyphenated();
    GetVariable::build_query(
        GetVariableVariables { var_id: id, fields_summary: true, fields_full },
    )
}

/// Build the request body for listing a factor graph's variable labels;
/// no solvability or tag filters are applied.
pub fn list_variables_query(nvafg: &NavAbilityDFG) -> (r: QueryBody<ListVariablesVariables>)
    ensures
        r.operation_name@ == "ListVariables"@,
        r.variables.fg_id@ == ascii_chars(
            uuid_text(nvafg.fg.id_spec(""@).0, nvafg.fg.id_spec(""@).1),
        ),
        r.variables.solvable_gt is None && r.variables.solvable_gte is None
            && r.variables.solvable_in is None && r.variables.solvable_lt is None
            && r.variables.solvable_lte is None && r.variables.tags_includes is None,
{
    let id = nvafg.fg.getId("").hyphenated();
    ListVariables::build_query(
        ListVariablesVariables {
            fg_id: id,
            solvable_gt: None,
            solvable_gte: None,
            solvable_in: None,
            solvable_lt: None,
            solvable_lte: None,
            tags_includes: None,
        },
    )
}

/// Build the request body for adding a variable.
///
/// Missing knobs take their documented defaults: the `"VARIABLE"` tag, a
/// solvability of one, the current clock, a zero nanosecond counter and
/// empty metadata (`"e30="`). The variable's identifier is derived from
/// the graph's namespace and the label.
pub fn add_variable_query(
    nvafg: &NavAbilityDFG,
    label: &String,
    variable_type: &String,
    tags: Option<Vec<String>>,
    solvable: Option<i64>,
    timestamp: Option<Timestamp>,
    nstime: Option<u64>,
    metadata: Option<String>,
) -> (r: QueryBody<AddVariableVariables>)
    requires
        timestamp matches Some(t) ==> t.displayable(),
    ensures
        r.operation_name@ == "AddVariable"@,
        r.variables.id@ == ascii_chars(
            uuid_text(nvafg.id_spec(label@).0, nvafg.id_spec(label@).1),
        ),
        r.variables.label@ == label@,
        r.variables.variable_type@ == variable_type@,
        (match tags {
            Some(ts) => r.variables.tags@ == ts@,
            None => r.variables.tags@.len() == 1 && r.variables.tags@[0]@ == "VARIABLE"@,
        }),
        timestamp matches Some(t) ==> r.variables.timestamp matches Some(s) && s@
            == crate::time::chrono_display_of(t.secs, t.nanos),
        r.variables.nstime matches Some(ns) && ns@ == ascii_chars(
            crate::numbers::dec_digits(
                (match nstime {
                    Some(v) => v,
                    None => 0,
                }) as nat,
            ),
        ),
        r.variables.solvable == Some(
            match solvable {
                Some(s) => s,
                None => 1i64,
            },
        ),
        r.variables.metadata matches Some(m) && m@ == (match metadata {
            Some(md) => md@,
            None => "e30="@,
        }),
{
    let md = match metadata {
        Some(m) => m,
        None => "e30=".to_owned(),
    };
    let tag_list: Vec<String> = match tags {
        Some(ts) => ts,
        None => {
            let mut v: Vec<String> = Vec::new();
            v.push("VARIABLE".to_owned());
            v
        },
    };
    let ts_string: Option<String> = match timestamp {
        Some(t) => Some(t.display_string()),
        None => {
            let now = Timestamp::now();
            match now.display_string_checked() {
                Some(s) => Some(s),
                None => Some(Timestamp::epoch().display_string()),
            }
        },
    };
    let ns: u64 = match nstime {
        Some(v) => v,
        None => 0,
    };
    AddVariable::build_query(
        AddVariableVariables {
            id: nvafg.getId(label.as_str()).hyphenated(),
            label: label.clone(),
            variable_type: variable_type.clone(),
            tags: tag_list,
            timestamp: ts_string,
            nstime: Some(crate::numbers::u64_dec_string(ns)),
            solvable: Some(
                match solvable {
                    Some(s) => s,
                    None => 1,
                },
            ),
            metadata: Some(md),
        },
    )
}


/// A labelled row of a listing response.
#[derive(Debug, Clone)]
pub struct LabeledRow {
    pub label: String,
}

/// The agent rows of one organization in a listing response.
#[derive(Debug, Clone)]
pub struct OrgAgentRows {
    pub agents: Vec<LabeledRow>,
}

/// The decoded data of an agent-listing response.
#[derive(Debug, Clone)]
pub struct ListAgentsResponseData {
    pub orgs: Vec<OrgAgentRows>,
}

/// The graph rows of one organization in a listing response.
#[derive(Debug, Clone)]
pub struct OrgGraphRows {
    pub fgs: Vec<LabeledRow>,
}

/// The decoded data of a graph-listing response.
#[derive(Debug, Clone)]
pub struct ListGraphsResponseData {
    pub orgs: Vec<OrgGraphRows>,
}

/// Collect every agent label of a listing response, in response order.
pub fn collect_agent_labels(data: ListAgentsResponseData) -> (r: Vec<String>)
    ensures
        r@.map_values(|s: String| s@) == data.orgs@.map_values(
            |o: OrgAgentRows| o.agents@.map_values(|a: LabeledRow| a.label@),
        ).flatten(),
{
    let rows = vecs_of_agent_rows(data);
    collect_labels(rows)
}

/// Collect every graph label of a listing response, in response order.
pub fn collect_graph_labels(data: ListGraphsResponseData) -> (r: Vec<String>)
    ensures
        r@.map_values(|s: String| s@) == data.orgs@.map_values(
            |o: OrgGraphRows| o.fgs@.map_values(|a: LabeledRow| a.label@),
        ).flatten(),
{
    let rows = vecs_of_graph_rows(data);
    collect_labels(rows)
}

/// Strip the organization wrapper from agent rows.
fn vecs_of_agent_rows(data: ListAgentsResponseData) -> (r: Vec<Vec<LabeledRow>>)
    ensures
        r@.map_values(|v: Vec<LabeledRow>| v@.map_values(|a: LabeledRow| a.label@))
            == data.orgs@.map_values(
            |o: OrgAgentRows| o.agents@.map_values(|a: LabeledRow| a.label@),
        ),
{
    let mut out: Vec<Vec<LabeledRow>> = Vec::new();
    let mut rest = data.orgs;
    let ghost all = rest@;
    let mut i: usize = 0;
    let n = rest.len();
    while i < n
        invariant
            n == all.len(),
            i <= n,
            rest@ == all.skip(i as int),
            out@.len() == i,
            forall|k: int| 0 <= k < i ==> (#[trigger] out@[k])@ == all[k].agents@,
        decreases n - i,
    {
        let row = rest.remove(0);
        out.push(row.agents);
        proof {
            assert(all.skip(i as int).drop_first() =~= all.skip(i + 1));
            assert(all.skip(i as int)[0] == all[i as int]);
        }
        i += 1;
    }
    proof {
        lemma_label_map_eq_agents(out@, all);
    }
    out
}

/// Strip the organization wrapper from graph rows.
fn vecs_of_graph_rows(data: ListGraphsResponseData) -> (r: Vec<Vec<LabeledRow>>)
    ensures
        r@.map_values(|v: Vec<LabeledRow>| v@.map_values(|a: LabeledRow| a.label@))
            == data.orgs@.map_values(
            |o: OrgGraphRows| o.fgs@.map_values(|a: LabeledRow| a.label@),
        ),
{
    let mut out: Vec<Vec<LabeledRow>> = Vec::new();
    let mut rest = data.orgs;
    let ghost all = rest@;
    let mut i: usize = 0;
    let n = rest.len();
    while i < n
        invariant
            n == all.len(),
            i <= n,
            rest@ == all.skip(i as int),
            out@.len() == i,
            forall|k: int| 0 <= k < i ==> (#[trigger] out@[k])@ == all[k].fgs@,
        decreases n - i,
    {
        let row = rest.remove(0);
        out.push(row.fgs);
        proof {
            assert(all.skip(i as int).drop_first() =~= all.skip(i + 1));
            assert(all.skip(i as int)[0] == all[i as int]);
        }
        i += 1;
    }
    proof {
        lemma_label_map_eq_graphs(out@, all);
    }
    out
}

/// Elementwise equality of the stripped rows gives equality of the mapped
/// label sequences.
proof fn lemma_label_map_eq_agents(out: Seq<Vec<LabeledRow>>, all: Seq<OrgAgentRows>)
    requires
        out.len() == all.len(),
        forall|k: int| 0 <= k < out.len() ==> (#[trigger] out[k])@ == all[k].agents@,
    ensures
        out.map_values(|v: Vec<LabeledRow>| v@.map_values(|a: LabeledRow| a.label@))
            == all.map_values(|o: OrgAgentRows| o.agents@.map_values(|a: LabeledRow| a.label@)),
{
    assert(out.map_values(|v: Vec<LabeledRow>| v@.map_values(|a: LabeledRow| a.label@))
        =~= all.map_values(|o: OrgAgentRows| o.agents@.map_values(|a: LabeledRow| a.label@)));
}

/// Elementwise equality of the stripped rows gives equality of the mapped
/// label sequences.
proof fn lemma_label_map_eq_graphs(out: Seq<Vec<LabeledRow>>, all: Seq<OrgGraphRows>)
    requires
        out.len() == all.len(),
        forall|k: int| 0 <= k < out.len() ==> (#[trigger] out[k])@ == all[k].fgs@,
    ensures
        out.map_values(|v: Vec<LabeledRow>| v@.map_values(|a: LabeledRow| a.label@))
            == all.map_values(|o: OrgGraphRows| o.fgs@.map_values(|a: LabeledRow| a.label@)),
{
    assert(out.map_values(|v: Vec<LabeledRow>| v@.map_values(|a: LabeledRow| a.label@))
        =~= all.map_values(|o: OrgGraphRows| o.fgs@.map_values(|a: LabeledRow| a.label@)));
}

/// Run the labels of every group together, keeping their order.
fn collect_labels(rows: Vec<Vec<LabeledRow>>) -> (r: Vec<String>)
    ensures
        r@.map_values(|s: String| s@) == rows@.map_values(
            |v: Vec<LabeledRow>| v@.map_values(|a: LabeledRow| a.label@),
        ).flatten(),
{
    broadcast use vstd::seq_lib::group_seq_properties;

    let mut out: Vec<String> = Vec::new();
    let mut rest = rows;
    let ghost all = rest@;
    let ghost f = |v: Vec<LabeledRow>| v@.map_values(|a: LabeledRow| a.label@);
    let mut i: usize = 0;
    let n = rest.len();
    proof {
        assert(all.take(0).map_values(f) =~= Seq::<Seq<Seq<char>>>::empty());
        assert(out@.map_values(|s: String| s@) =~= all.take(0).map_values(f).flatten());
    }
    while i < n
        invariant
            n == all.len(),
            i <= n,
            rest@ == all.skip(i as int),
            f == (|v: Vec<LabeledRow>| v@.map_values(|a: LabeledRow| a.label@)),
            out@.map_values(|s: String| s@) == all.take(i as int).map_values(f).flatten(),
        decreases n - i,
    {
        let mut group = rest.remove(0);
        proof {
            assert(all.skip(i as int).drop_first() =~= all.skip(i + 1));
            assert(all.skip(i as int)[0] == all[i as int]);
        }
        let ghost group_view = group@;
        let ghost out_before = out@;
        let m = group.len();
        let mut j: usize = 0;
        while j < m
            invariant
                m == group_view.len(),
                j <= m,
                group@ == group_view.skip(j as int),
                out@.map_values(|s: String| s@) == out_before.map_values(|s: String| s@)
                    + group_view.map_values(|a: LabeledRow| a.label@).take(j as int),
            decreases m - j,
        {
            let item = group.remove(0);
            let ghost out_prev = out@;
            out.push(item.label);
            proof {
                assert(group_view.skip(j as int).drop_first() =~= group_view.skip(j + 1));
                assert(group_view.skip(j as int)[0] == group_view[j as int]);
                assert(item == group_view[j as int]);
                assert(out@ =~= out_prev.push(item.label));
                assert(out@.map_values(|s: String| s@) =~= out_prev.map_values(
                    |s: String| s@,
                ).push(item.label@));
                assert(group_view.map_values(|a: LabeledRow| a.label@).take(j + 1)
                    =~= group_view.map_values(|a: LabeledRow| a.label@).take(j as int).push(
                    group_view[j as int].label@,
                ));
                assert(out@.map_values(|s: String| s@) =~= out_before.map_values(|s: String| s@)
                    + group_view.map_values(|a: LabeledRow| a.label@).take(j + 1));
            }
            j += 1;
        }
        proof {
            let mapped = all.map_values(f);
            assert(group_view.map_values(|a: LabeledRow| a.label@).take(m as int)
                =~= f(all[i as int]));
            assert(all.take(i + 1).map_values(f) =~= all.take(i as int).map_values(f).push(
                f(all[i as int]),
            ));
            Seq::lemma_flatten_push(all.take(i as int).map_values(f), f(all[i as int]));
            assert(out@.map_values(|s: String| s@) =~= all.take(i + 1).map_values(f).flatten());
        }
        i += 1;
    }
    proof {
        assert(all.take(n as int) =~= all);
    }
    out
}

} // verus!

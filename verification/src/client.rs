//! The native object graph that the boundary wraps: the client connection
//! record, graph/agent nodes, blob stores and the combined factor-graph
//! client. These are plain immutable-after-construction values; the HTTP
//! transport that acts on them belongs to the caller, not to this library.

use vstd::prelude::*;
use vstd::string::StringExecFns;
use vstd::string::StringSliceAdditionalSpecFns;

use vstd::utf8::encode_utf8;

use crate::agent::Agent;
use crate::ids::is_uuid_text;
use crate::ids::uuid_text_value;
use crate::ids::uuid_v5_of;
use crate::ids::Uuid;
use crate::GetId;
use crate::GetLabel;

verus! {

/// Connection record for the remote service: endpoint and credentials.
///
/// The transport object that actually speaks HTTP is owned by the caller;
/// this record carries the plain values every request needs.
#[derive(Debug, Clone)]
pub struct NavAbilityClient {
    pub apiurl: String,
    pub user_label: String,
    pub nva_api_token: String,
}

impl NavAbilityClient {
    /// Assemble a connection record from its parts.
    pub fn new(apiurl: &String, user_label: &String, nva_api_token: &String) -> (r:
        NavAbilityClient)
        ensures
            r.apiurl@ == apiurl@,
            r.user_label@ == user_label@,
            r.nva_api_token@ == nva_api_token@,
    {
        NavAbilityClient {
            apiurl: apiurl.clone(),
            user_label: user_label.clone(),
            nva_api_token: nva_api_token.clone(),
        }
    }
}

impl GetId for NavAbilityClient {
    open spec fn id_wf(&self) -> bool {
        is_uuid_text(encode_utf8(self.user_label@))
    }

    open spec fn id_spec(&self, label: Seq<char>) -> (u64, u64) {
        let ns = uuid_text_value(encode_utf8(self.user_label@));
        uuid_v5_of(ns.0, ns.1, vstd::utf8::encode_utf8(label))
    }

    fn getId(&self, label: &str) -> (r: Uuid) {
        let ns = match Uuid::parse_str(self.user_label.as_str()) {
            Ok(u) => u,
            Err(_) => {
                // id_wf() says the organization label parses, so this
                // branch cannot be reached.
                proof {
                    assert(false);
                }
                Uuid::nil()
            },
        };
        ns.new_v5(label.as_bytes())
    }
}

/// Marker for the model kind of graph node.
#[derive(Debug, Clone)]
pub struct Model {}

/// Marker for the factor-graph kind of graph node.
#[derive(Debug, Clone)]
pub struct Factorgraph {}

/// An organization: the root of the remote object graph.
#[derive(Debug, Clone)]
pub struct Org {
    pub id: Uuid,
    pub label: String,
    pub description: String,
}

/// A named node in the remote graph, identified deterministically within
/// its organization's namespace; the type parameter records what kind of
/// node it stands for.
#[derive(Debug)]
pub struct NvaNode<T> {
    pub namespace: Uuid,
    pub label: String,
    pub _marker: core::marker::PhantomData<T>,
}

impl<T> GetLabel for NvaNode<T> {
    open spec fn label_spec(&self) -> Seq<char> {
        self.label@
    }

    fn getLabel(&self) -> (r: &String) {
        &self.label
    }
}

impl<T> GetId for NvaNode<T> {
    open spec fn id_wf(&self) -> bool {
        true
    }

    open spec fn id_spec(&self, label: Seq<char>) -> (u64, u64) {
        uuid_v5_of(
            self.namespace.hi,
            self.namespace.lo,
            vstd::utf8::encode_utf8(self.label@ + label),
        )
    }

    fn getId(&self, label: &str) -> (r: Uuid) {
        let combined = self.label.clone().concat(label);
        self.namespace.new_v5(combined.as_str().as_bytes())
    }
}

/// A blob store within an organization, addressed by label.
#[derive(Debug, Clone)]
pub struct NavAbilityBlobStore {
    pub client: NavAbilityClient,
    pub label: String,
}

impl GetLabel for NavAbilityBlobStore {
    open spec fn label_spec(&self) -> Seq<char> {
        self.label@
    }

    fn getLabel(&self) -> (r: &String) {
        &self.label
    }
}

/// The combined factor-graph client: a connection record together with the
/// graph node, agent node and blob stores it works against.
///
/// The stores are kept as a list with pairwise distinct labels, which is
/// the lookup invariant the store map must maintain.
#[derive(Debug)]
pub struct NavAbilityDFG {
    pub client: NavAbilityClient,
    pub fg: NvaNode<Factorgraph>,
    pub agent: NvaNode<Agent>,
    pub blob_stores: Vec<NavAbilityBlobStore>,
}

impl NavAbilityDFG {
    /// Distinct store labels: the lookup invariant of the store list.
    pub open spec fn wf(&self) -> bool {
        forall|i: int, j: int|
            0 <= i < j < self.blob_stores@.len() ==> self.blob_stores@[i].label@
                != self.blob_stores@[j].label@
    }

    /// Assemble a factor-graph client from a connection record and the
    /// graph, agent and store labels.
    ///
    /// This is the pure assembly: both named nodes share the namespace
    /// spelled by the client's organization label, and the store list
    /// starts with the single named store (`"default"` when none is
    /// given). Ensuring that the graph and agent exist remotely is
    /// transport work and stays with the caller.
    pub fn new(client: &NavAbilityClient, fg_label: &str, agent_label: &str, store_label: Option<
        &str,
    >) -> (r: NavAbilityDFG)
        requires
            is_uuid_text(encode_utf8(client.user_label@)),
        ensures
            r.wf(),
            r.client.apiurl@ == client.apiurl@,
            r.client.user_label@ == client.user_label@,
            r.client.nva_api_token@ == client.nva_api_token@,
            (r.fg.namespace.hi, r.fg.namespace.lo) == uuid_text_value(
                encode_utf8(client.user_label@),
            ),
            r.agent.namespace == r.fg.namespace,
            r.fg.label@ == fg_label@,
            r.agent.label@ == agent_label@,
            r.blob_stores@.len() == 1,
            r.blob_stores@[0].label@ == (match store_label {
                Some(s) => s@,
                None => "default"@,
            }),
    {
        let namespace = match Uuid::parse_str(client.user_label.as_str()) {
            Ok(u) => u,
            Err(_) => {
                // The precondition says the organization label parses, so
                // this branch cannot be reached.
                proof {
                    assert(false);
                }
                Uuid::nil()
            },
        };
        let store_lb: &str = match store_label {
            Some(s) => s,
            None => "default",
        };
        let fg = NvaNode::<Factorgraph> {
            namespace,
            label: fg_label.to_owned(),
            _marker: core::marker::PhantomData,
        };
        let agent = NvaNode::<Agent> {
            namespace,
            label: agent_label.to_owned(),
            _marker: core::marker::PhantomData,
        };
        let store = NavAbilityBlobStore {
            client: NavAbilityClient::new(&client.apiurl, &client.user_label, &client.nva_api_token),
            label: store_lb.to_owned(),
        };
        let mut blob_stores: Vec<NavAbilityBlobStore> = Vec::new();
        blob_stores.push(store);
        NavAbilityDFG {
            client: NavAbilityClient::new(&client.apiurl, &client.user_label, &client.nva_api_token),
            fg,
            agent,
            blob_stores,
        }
    }
}

/// True when the listing holds the label.
pub fn contains_label(labels: &Vec<String>, label: &str) -> (r: bool)
    ensures
        r <==> exists|i: int| 0 <= i < labels@.len() && (#[trigger] labels@[i])@ == label@,
{
    let n = labels.len();
    let mut i: usize = 0;
    while i < n
        invariant
            n == labels@.len(),
            i <= n,
            forall|k: int| 0 <= k < i ==> (#[trigger] labels@[k])@ != label@,
        decreases n - i,
    {
        if crate::text::str_eq(labels[i].as_str(), label) {
            return true;
        }
        i += 1;
    }
    false
}

/// The idempotent-construction decision: a named node must still be added
/// exactly when the remote listing could not be obtained, or was obtained
/// and does not hold the label. The caller performs the listing and the
/// addition; this function only decides.
pub fn should_add_node(listing: &Result<Vec<String>, crate::common::ApiError>, label: &str) -> (r:
    bool)
    ensures
        listing matches Ok(ls) ==> (r <==> !exists|i: int|
            0 <= i < ls@.len() && (#[trigger] ls@[i])@ == label@),
        listing is Err ==> r,
{
    match listing {
        Ok(ls) => !contains_label(ls, label),
        Err(_) => true,
    }
}

impl GetLabel for NavAbilityDFG {
    open spec fn label_spec(&self) -> Seq<char> {
        self.fg.label@
    }

    fn getLabel(&self) -> (r: &String) {
        &self.fg.label
    }
}

impl GetId for NavAbilityDFG {
    open spec fn id_wf(&self) -> bool {
        true
    }

    open spec fn id_spec(&self, label: Seq<char>) -> (u64, u64) {
        self.fg.id_spec(label)
    }

    fn getId(&self, label: &str) -> (r: Uuid) {
        self.fg.getId(label)
    }
}

} // verus!

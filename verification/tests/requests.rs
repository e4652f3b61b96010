//! Tests for the query layer: request builders, response checking, and
//! channel handoff.

use navabilitysdk::blob_entry::BlobEntry;
use navabilitysdk::client::NavAbilityClient;
use navabilitysdk::client::NavAbilityDFG;
use navabilitysdk::common::check_deser;
use navabilitysdk::common::check_query_response_data;
use navabilitysdk::common::send_api_result;
use navabilitysdk::common::send_query_result;
use navabilitysdk::common::ApiError;
use navabilitysdk::common::GQLRequestError;
use navabilitysdk::common::GqlError;
use navabilitysdk::common::QueryResponse;
use navabilitysdk::queries::add_agent_query;
use navabilitysdk::queries::add_blob_entry_agent_query;
use navabilitysdk::queries::add_variable_query;
use navabilitysdk::queries::collect_agent_labels;
use navabilitysdk::queries::complete_upload_query;
use navabilitysdk::queries::create_download_query;
use navabilitysdk::queries::delete_blob_query;
use navabilitysdk::queries::get_agents_query;
use navabilitysdk::queries::get_variable_query;
use navabilitysdk::queries::list_agents_query;
use navabilitysdk::queries::list_graphs_query;
use navabilitysdk::queries::list_models_query;
use navabilitysdk::queries::LabeledRow;
use navabilitysdk::queries::ListAgentsResponseData;
use navabilitysdk::queries::OrgAgentRows;
use navabilitysdk::ids::Uuid;
use navabilitysdk::time::Timestamp;

const ORG: &str = "00000000-0000-0000-0000-000000000000";

fn client() -> NavAbilityClient {
    NavAbilityClient::new(&"https://example.test".to_string(), &ORG.to_string(), &"t".to_string())
}

fn v5_text(name: &str) -> String {
    uuid::Uuid::new_v5(&uuid::Uuid::nil(), name.as_bytes()).to_string()
}

#[test]
fn list_and_get_agents_bodies() {
    let c = client();
    let body = list_agents_query(&c);
    assert_eq!(body.operation_name, "ListAgents");
    assert_eq!(body.variables.org_id, ORG);

    let narrowed = get_agents_query(&c, Some("agent1"));
    assert_eq!(narrowed.variables.agent_id.as_deref(), Some(v5_text("agent1").as_str()));
    assert_eq!(narrowed.variables.full, Some(true));
    let broad = get_agents_query(&c, None);
    assert!(broad.variables.agent_id.is_none());
}

#[test]
fn add_agent_body_derives_the_identifier() {
    let c = client();
    let body = add_agent_query(&c, &"agent1".to_string());
    assert_eq!(body.operation_name, "AddAgent");
    assert_eq!(body.variables.agent_id, v5_text("agent1"));
    assert_eq!(body.variables.label, "agent1");
    assert_eq!(body.variables.version, "0.25");
}

#[test]
fn blob_entry_attachment_body() {
    let c = client();
    let mut entry = BlobEntry::new();
    entry.label = "LEFTCAM_1".into();
    entry.size = Some(1024);
    entry.metadata = String::new();
    entry.timestamp = Timestamp { secs: 1725330699, nanos: 367_000_000 };
    let body = add_blob_entry_agent_query(&c, &"agent1".to_string(), &entry);
    assert_eq!(body.variables.agent_label, "agent1");
    assert_eq!(body.variables.entry_label, "LEFTCAM_1");
    assert_eq!(body.variables.entry_id, v5_text("agent1LEFTCAM_1"));
    assert_eq!(body.variables.size.as_deref(), Some("1024"));
    // Empty metadata falls back to base64 "{}".
    assert_eq!(body.variables.metadata, "e30=");
    let expect_ts = chrono::DateTime::<chrono::Utc>::from_timestamp(1725330699, 367_000_000)
        .unwrap()
        .to_string();
    assert_eq!(body.variables.timestamp.as_deref(), Some(expect_ts.as_str()));
}

#[test]
fn blob_and_variable_bodies() {
    let blob_id = Uuid { hi: 1, lo: 2 };
    let dl = create_download_query(&blob_id, None);
    assert_eq!(dl.variables.store, "default");
    assert_eq!(dl.variables.blob_id, uuid::Uuid::from_u64_pair(1, 2).to_string());
    let del = delete_blob_query(&blob_id, Some("warehouse"));
    assert_eq!(del.variables.label.as_deref(), Some("warehouse"));

    let done = complete_upload_query(&blob_id, "upl".into(), vec!["e1".into(), "e2".into()]);
    let parts = &done.variables.completed_upload.parts;
    assert_eq!(parts.len(), 2);
    assert_eq!(parts[0].as_ref().unwrap().part_number, 1);
    assert_eq!(parts[1].as_ref().unwrap().part_number, 2);
    assert_eq!(parts[1].as_ref().unwrap().e_tag.as_deref(), Some("e2"));

    let c = client();
    let dfg = NavAbilityDFG::new(&c, "graph1", "agent1", None);
    let gv = get_variable_query(&dfg, "x0", false);
    assert_eq!(gv.variables.var_id, v5_text("graph1x0"));
    assert!(gv.variables.fields_summary);
    let av = add_variable_query(
        &dfg,
        &"x0".to_string(),
        &"RoME.Pose2".to_string(),
        None,
        None,
        Some(Timestamp { secs: 0, nanos: 0 }),
        None,
        None,
    );
    assert_eq!(av.variables.id, v5_text("graph1x0"));
    assert_eq!(av.variables.tags, vec!["VARIABLE".to_string()]);
    assert_eq!(av.variables.solvable, Some(1));
    assert_eq!(av.variables.nstime.as_deref(), Some("0"));
    assert_eq!(av.variables.metadata.as_deref(), Some("e30="));

    let lg = list_graphs_query(&c);
    assert_eq!(lg.variables.id, ORG);
    let lm = list_models_query(None);
    assert_eq!(lm.variables.label_contains.as_deref(), Some(""));
}

#[test]
fn graph_entry_attachment_body() {
    let c = client();
    let mut entry = BlobEntry::new();
    entry.label = "map".into();
    entry.timestamp = Timestamp { secs: 0, nanos: 0 };
    let body = navabilitysdk::queries::add_blob_entry_graph_query(&c, &"graph1".to_string(), &entry);
    assert_eq!(body.operation_name, "AddFactorgraphBlobEntry");
    assert_eq!(body.variables.fg_label, "graph1");
    assert_eq!(body.variables.entry_id, v5_text("graph1map"));
}

#[test]
fn absent_nodes_are_decided_for_addition() {
    let listing: Result<Vec<String>, ApiError> =
        Ok(vec!["graph1".to_string(), "graph2".to_string()]);
    assert!(!navabilitysdk::client::should_add_node(&listing, "graph1"));
    assert!(navabilitysdk::client::should_add_node(&listing, "graph3"));
    let failed: Result<Vec<String>, ApiError> =
        Err(ApiError::Request(GQLRequestError { details: "down".into() }));
    assert!(navabilitysdk::client::should_add_node(&failed, "graph1"));
}

fn row(label: &str) -> LabeledRow {
    LabeledRow { label: label.to_string() }
}

#[test]
fn agent_labels_are_collected_in_order() {
    let data = ListAgentsResponseData {
        orgs: vec![
            OrgAgentRows { agents: vec![row("a"), row("b")] },
            OrgAgentRows { agents: vec![] },
            OrgAgentRows { agents: vec![row("c")] },
        ],
    };
    assert_eq!(collect_agent_labels(data), vec!["a", "b", "c"]);
}

fn ok_response(data: u32) -> Result<QueryResponse<u32>, ApiError> {
    Ok(QueryResponse { data: Some(data), errors: None })
}

#[test]
fn response_checking_separates_the_three_failure_tiers() {
    let doubled = check_query_response_data(ok_response(21), |d: u32| d * 2).unwrap();
    assert_eq!(doubled, 42);

    let with_errors: Result<QueryResponse<u32>, ApiError> = Ok(QueryResponse {
        data: Some(1),
        errors: Some(vec![GqlError { message: "nope".into() }]),
    });
    assert!(matches!(
        check_query_response_data(with_errors, |d: u32| d),
        Err(ApiError::Response(_))
    ));

    let empty: Result<QueryResponse<u32>, ApiError> =
        Ok(QueryResponse { data: None, errors: None });
    assert!(matches!(check_query_response_data(empty, |d: u32| d), Err(ApiError::Empty(_))));

    let failed: Result<QueryResponse<u32>, GQLRequestError> =
        Err(GQLRequestError { details: "down".into() });
    assert!(matches!(check_deser(failed), Err(ApiError::Request(_))));
}

#[test]
fn results_are_handed_into_channels() {
    let (tx, rx) = std::sync::mpsc::channel::<u32>();
    send_query_result(tx, ok_response(7), |d: u32| d + 1).unwrap();
    assert_eq!(rx.try_recv().unwrap(), 8);

    let (tx2, rx2) = std::sync::mpsc::channel::<u32>();
    send_api_result(tx2, Ok(9)).unwrap();
    assert_eq!(rx2.try_recv().unwrap(), 9);

    // A failed result passes through instead of being sent.
    let (tx3, rx3) = std::sync::mpsc::channel::<u32>();
    let e = send_api_result(
        tx3,
        Err(ApiError::Request(GQLRequestError { details: "x".into() })),
    );
    assert!(matches!(e, Err(ApiError::Request(_))));
    assert!(rx3.try_recv().is_err());

    // A gone receiver is reported as a channel failure.
    let (tx4, rx4) = std::sync::mpsc::channel::<u32>();
    drop(rx4);
    assert!(matches!(send_api_result(tx4, Ok(1)), Err(ApiError::Channel(_))));
}

#[test]
fn entries_come_back_through_the_receiver() {
    let (tx, rx) = std::sync::mpsc::channel::<Vec<BlobEntry>>();
    assert!(BlobEntry::try_from_receiver(&rx).is_none());
    tx.send(vec![BlobEntry::new()]).unwrap();
    let got = BlobEntry::try_from_receiver(&rx).unwrap();
    assert_eq!(got.len(), 1);
}

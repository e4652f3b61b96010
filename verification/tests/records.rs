//! Tests for the record layer: agents, blob entries, variables, factors
//! and the row decoders.

use navabilitysdk::agent::Agent;
use navabilitysdk::agent::AgentFieldsFull;
use navabilitysdk::agent::AgentFieldsSummary;
use navabilitysdk::blob_entry::BlobEntry;
use navabilitysdk::blob_entry::BlobEntryFields;
use navabilitysdk::blob_entry::BlobEntrySummaryFields;
use navabilitysdk::client::NavAbilityClient;
use navabilitysdk::client::NavAbilityDFG;
use navabilitysdk::deprecated::send_api_response;
use navabilitysdk::factors::assemble_factor_name;
use navabilitysdk::factors::get_fnc_name;
use navabilitysdk::factors::FactorDFG;
use navabilitysdk::factors::FactorType;
use navabilitysdk::factors::Pose2Pose2;
use navabilitysdk::ids::Uuid;
use navabilitysdk::time::Timestamp;
use navabilitysdk::uploader::FileUploader;
use navabilitysdk::variable::VariableDFG;
use navabilitysdk::variable::VariableGqlFields;
use navabilitysdk::GetLabel;
use navabilitysdk::MarshalError;

fn full_row() -> BlobEntryFields {
    BlobEntryFields {
        id: "a1a2a3a4-b1b2-c1c2-d1d2-d3d4d5d6d7d8".into(),
        blob_id: "00000000-0000-0000-0000-000000000001".into(),
        origin_id: None,
        label: "LEFTCAM_1".into(),
        blobstore: None,
        hash: Some("abc".into()),
        origin: None,
        size: Some("1024".into()),
        description: None,
        mime_type: Some("image/png".into()),
        metadata: Some("e30=".into()),
        timestamp: Some("2024-09-03 02:31:39.367 UTC".into()),
        created_timestamp: "2024-10-28T20:56:35.270Z".into(),
        last_updated_timestamp: "2024-10-28T20:56:35.270Z".into(),
        version: "0.25".into(),
        type_: None,
    }
}

#[test]
fn blob_entry_row_decodes_field_by_field() {
    let e = BlobEntry::from_gql(full_row()).unwrap();
    assert_eq!(e.id.unwrap().hyphenated(), "a1a2a3a4-b1b2-c1c2-d1d2-d3d4d5d6d7d8");
    assert_eq!(e.blob_id.hyphenated(), "00000000-0000-0000-0000-000000000001");
    assert_eq!(e.label, "LEFTCAM_1");
    assert_eq!(e.blobstore, "default");
    assert_eq!(e.hash, "abc");
    assert_eq!(e.size, Some(1024));
    assert_eq!(e.mime_type, "image/png");
    assert_eq!(e.metadata, "e30=");
    let want = chrono::DateTime::parse_from_rfc3339("2024-09-03T02:31:39.367Z").unwrap();
    assert_eq!(e.timestamp.secs, want.timestamp());
    assert!(e.created_timestamp.is_some());
}

#[test]
fn blob_entry_row_rejects_bad_columns() {
    let mut bad_id = full_row();
    bad_id.id = "nope".into();
    assert!(matches!(BlobEntry::from_gql(bad_id), Err(MarshalError::InvalidUuid)));
    let mut bad_size = full_row();
    bad_size.size = Some("many".into());
    assert!(matches!(BlobEntry::from_gql(bad_size), Err(MarshalError::InvalidNumber)));
}

#[test]
fn blob_entry_summary_and_legacy_decoders() {
    let s = BlobEntry::from_gql_summary(BlobEntrySummaryFields {
        id: "a1a2a3a4-b1b2-c1c2-d1d2-d3d4d5d6d7d8".into(),
        label: "cam".into(),
        size: Some("7".into()),
        mime_type: None,
        last_updated_timestamp: "2024-10-28T20:56:35.270Z".into(),
    })
    .unwrap();
    assert_eq!(s.label, "cam");
    assert_eq!(s.size, Some(7));
    assert_eq!(s.mime_type, "");
    assert_eq!(s.blob_id, Uuid { hi: 0, lo: 0 });

    // The older decoder keeps the empty-record defaults instead.
    let legacy = BlobEntry::from_gql2(full_row()).unwrap();
    assert_eq!(legacy.blobstore, "");
    assert_eq!(legacy.origin, "");
}

#[test]
fn fresh_blob_entry_has_documented_defaults() {
    let e = BlobEntry::new();
    assert_eq!(e.blobstore, "default");
    assert_eq!(e.origin, "NvaSDK.rs");
    assert_eq!(e.metadata, "e30=");
    assert_eq!(e._type, "BlobEntry");
    assert_eq!(e._version, "0.25");
    assert_eq!(e.created_timestamp, e.last_updated_timestamp);
}

#[test]
fn agent_construction_and_row_decoding() {
    let org = Uuid::nil();
    let agent = Agent::new(
        &org,
        "agent1".into(),
        "desc".into(),
        vec!["TAG".into()],
        Timestamp { secs: 12, nanos: 0 },
    );
    let expect = uuid::Uuid::new_v5(&uuid::Uuid::nil(), b"agent1").as_u64_pair();
    let id = agent.id.unwrap();
    assert_eq!((id.hi, id.lo), expect);
    assert_eq!(agent.getLabel(), "agent1");
    assert_eq!(agent.last_updated_timestamp, Some(agent.created_timestamp));

    let mut decoded = Agent::from_gql_summary(AgentFieldsSummary {
        id: "a1a2a3a4-b1b2-c1c2-d1d2-d3d4d5d6d7d8".into(),
        label: "agent1".into(),
        description: None,
        tags: vec![],
        version: "0.25".into(),
        created_timestamp: "2024-10-28T20:56:35.270Z".into(),
        last_updated_timestamp: "garbled".into(),
    })
    .unwrap();
    assert_eq!(decoded.description, "");
    assert!(decoded.last_updated_timestamp.is_none());

    Agent::from_gql_full(
        AgentFieldsFull {
            metadata: Some("bWV0YQ==".into()),
            blob_entries: vec![BlobEntry::new()],
            models: vec![("m1".into(), "2024-10-28T20:56:35.270Z".into())],
            fgs: vec![],
        },
        &mut decoded,
    )
    .unwrap();
    assert_eq!(decoded.metadata.as_deref(), Some("bWV0YQ=="));
    assert_eq!(decoded.blob_entries.as_ref().unwrap().len(), 1);
    assert_eq!(decoded.models.as_ref().unwrap()[0].0, "m1");

    // A full row with an unreadable model instant is rejected whole.
    let err = Agent::from_gql_full(
        AgentFieldsFull {
            metadata: None,
            blob_entries: vec![],
            models: vec![("m1".into(), "not a time".into())],
            fgs: vec![],
        },
        &mut decoded,
    );
    assert!(matches!(err, Err(MarshalError::InvalidTimestamp)));
}

#[test]
fn variable_record_defaults_and_decoding() {
    let v = VariableDFG::new("x0", "RoME.Pose2", Some(Timestamp { secs: 5, nanos: 0 }), None);
    assert_eq!(v.label, "x0");
    assert_eq!(v.solvable, 1);
    assert_eq!(v.nstime, 0);
    assert_eq!(v._version, "0.25");

    let decoded = VariableDFG::from_gql(VariableGqlFields {
        id: "bogus".into(),
        label: "x1".into(),
        tags: vec!["VARIABLE".into()],
        timestamp: "2024-10-28T20:56:35.270Z".into(),
        nstime: "250".into(),
        variable_type: "RoME.Pose2".into(),
        version: "0.25".into(),
        solvable: 1,
        metadata: None,
        blob_entries: vec![],
    });
    assert!(decoded.id.is_none());
    assert_eq!(decoded.nstime, 250);
    assert_eq!(decoded.metadata, "");
}

#[test]
fn factor_assembly() {
    let name = assemble_factor_name(vec!["x1", "x2"]);
    assert_eq!(name.len(), "x1x2".len() + 5);
    assert!(name.starts_with("x1x2_"));
    assert!(name[5..].chars().all(|ch| ch.is_ascii_hexdigit()));

    assert_eq!(get_fnc_name("RoME.Pose2Pose2"), "Pose2Pose2");
    assert_eq!(get_fnc_name("nodots"), "nodots");
    assert_eq!(get_fnc_name("trailing."), "");

    let kind: Pose2Pose2<u64> = Pose2Pose2::new(7);
    assert_eq!(kind.type_str(), "RoME.Pose2Pose2");

    let f = FactorDFG::new(
        vec!["x1", "x2"],
        kind.type_str(),
        vec!["ODOMETRY", "FACTOR"],
        Some(Timestamp { secs: 9, nanos: 0 }),
        Some(77),
    );
    assert_eq!(f.tags, vec!["FACTOR".to_string(), "ODOMETRY".to_string()]);
    assert_eq!(f.variable_order_symbols, vec!["x1".to_string(), "x2".to_string()]);
    assert_eq!(f.nstime.as_deref(), Some("77"));
    assert_eq!(f.fnctype, "RoME.Pose2Pose2");
    assert_eq!(f.solvable, Some(0));
    assert_eq!(f.metadata.as_deref(), Some("e30="));
}

#[test]
fn dfg_assembly_defaults_the_store() {
    let client = NavAbilityClient::new(
        &"url".to_string(),
        &"00000000-0000-0000-0000-000000000000".to_string(),
        &"tok".to_string(),
    );
    let dfg = NavAbilityDFG::new(&client, "graph1", "agent1", None);
    assert_eq!(dfg.fg.label, "graph1");
    assert_eq!(dfg.agent.label, "agent1");
    assert_eq!(dfg.blob_stores.len(), 1);
    assert_eq!(dfg.blob_stores[0].label, "default");
    assert_eq!(dfg.fg.namespace, Uuid { hi: 0, lo: 0 });

    let named = NavAbilityDFG::new(&client, "g", "a", Some("warehouse"));
    assert_eq!(named.blob_stores[0].label, "warehouse");
}

#[test]
fn uploader_bookkeeping_starts_at_zero() {
    let client = NavAbilityClient::new(&"u".to_string(), &"o".to_string(), &"t".to_string());
    let up = FileUploader::new(client, 0u8, "file".into(), Uuid::nil(), Some(4096));
    assert_eq!(up.chunk_size, 4096);
    assert_eq!(up.nbytes_uploaded, 0);
}

#[test]
fn deprecated_channel_handoff_delivers() {
    let (tx, rx) = std::sync::mpsc::channel::<u32>();
    send_api_response(tx, 5).unwrap();
    assert_eq!(rx.try_recv().unwrap(), 5);
}

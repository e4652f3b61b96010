//! Scenario tests for the foreign-call boundary: construct, read and
//! destroy handles, marshal lists, and reject malformed input.

use std::rc::Rc;

use navabilitysdk::capi::free_BlobEntry;
use navabilitysdk::capi::free_NavAbilityBlobStore;
use navabilitysdk::capi::free_NavAbilityClient;
use navabilitysdk::capi::free_NavAbilityDFG;
use navabilitysdk::capi::free_VariableDFG;
use navabilitysdk::capi::free_rvecagent;
use navabilitysdk::capi::getLabel_Agent;
use navabilitysdk::capi::getLabel_BlobEntry;
use navabilitysdk::capi::getLabel_NavAbilityBlobStore;
use navabilitysdk::capi::get_apiurl;
use navabilitysdk::capi::BlobEntry_basic;
use navabilitysdk::capi::BlobEntry_new;
use navabilitysdk::capi::NavAbilityBlobStore_new;
use navabilitysdk::capi::NavAbilityClient_new;
use navabilitysdk::capi::NavAbilityDFG_new;
use navabilitysdk::descriptor::free_rvec;
use navabilitysdk::descriptor::get_index;
use navabilitysdk::descriptor::length;
use navabilitysdk::descriptor::vec_to_ffi;
use navabilitysdk::agent::Agent;
use navabilitysdk::ids::Uuid;
use navabilitysdk::text::cstr_to_str;
use navabilitysdk::time::Timestamp;
use navabilitysdk::MarshalError;

fn c(text: &str) -> Vec<u8> {
    let mut v = text.as_bytes().to_vec();
    v.push(0);
    v
}

fn buffer_text(buf: &navabilitysdk::text::ByteBuffer) -> String {
    cstr_to_str(buf.raw_bytes()).expect("outbound buffers always decode")
}

#[test]
fn construct_read_destroy_client() {
    let client = NavAbilityClient_new(
        &c("https://api.navability.io/graphql"),
        &c("00000000-0000-0000-0000-000000000000"),
        &c("SECRET-REDACTED"),
    )
    .expect("well-formed inputs construct");
    let url = get_apiurl(&client).expect("no interior NUL");
    assert_eq!(buffer_text(&url), "https://api.navability.io/graphql");
    navabilitysdk::text::free_cstr(url);
    free_NavAbilityClient(Some(client));
}

#[test]
fn construct_read_destroy_record() {
    // Scenario: construct a record from literal field values, read the
    // marshaled fields back, destroy without error.
    let entry = BlobEntry_new(
        &c("00000000-0000-0000-0000-000000000000"),
        &c("LEFTCAM_1"),
        &c("default"),
        &c(""),
        &c("test"),
        1024,
        &c(""),
        &c("image/png"),
        &c("e30="),
        &c("2024-09-03 02:31:39.367 UTC"),
    )
    .expect("well-formed inputs construct");
    let label = getLabel_BlobEntry(&entry).expect("no interior NUL");
    assert_eq!(buffer_text(&label), "LEFTCAM_1");
    assert_eq!(entry.size, Some(1024));
    assert_eq!(entry.mime_type, "image/png");
    navabilitysdk::text::free_cstr(label);
    free_BlobEntry(Some(entry));
}

#[test]
fn malformed_label_is_rejected_not_fatal() {
    // Scenario: a constructor fed invalid UTF-8 in a required text field
    // answers with the documented failure code (this library's chosen
    // contract) instead of aborting.
    let mut bad = vec![0x4c, 0xff, 0xfe, 0x00];
    let r = BlobEntry_basic(&bad, &c("image/png"));
    assert!(matches!(r, Err(MarshalError::InvalidUtf8)));
    // A buffer with no terminator is told apart from one with bad text.
    bad.pop();
    let r2 = BlobEntry_basic(&bad, &c("image/png"));
    assert!(matches!(r2, Err(MarshalError::MissingNul)));
    // A malformed identifier is told apart as well.
    let r3 = BlobEntry_new(
        &c("not-a-uuid"),
        &c("x"),
        &c("default"),
        &c(""),
        &c(""),
        1,
        &c(""),
        &c(""),
        &c("e30="),
        &c("2024-09-03 02:31:39.367 UTC"),
    );
    assert!(matches!(r3, Err(MarshalError::InvalidUuid)));
    // And a malformed timestamp.
    let r4 = BlobEntry_new(
        &c("00000000-0000-0000-0000-000000000000"),
        &c("x"),
        &c("default"),
        &c(""),
        &c(""),
        1,
        &c(""),
        &c(""),
        &c("e30="),
        &c("not a time"),
    );
    assert!(matches!(r4, Err(MarshalError::InvalidTimestamp)));
}

#[test]
fn absent_destroy_is_a_no_op() {
    // Every exported destructor accepts the absent marker and returns
    // normally.
    free_BlobEntry(None);
    free_NavAbilityClient(None);
    free_NavAbilityDFG(None);
    free_NavAbilityBlobStore(None);
    free_VariableDFG(None);
    navabilitysdk::capi::free_Pose3Pose3::<u64>(None);
}

#[test]
fn construct_then_destroy_releases_resources() {
    // Round-trip: construct then immediately destroy; an instrumented
    // payload shows the handle's resources are released exactly once.
    let witness = Rc::new(String::from("payload"));
    let store = NavAbilityBlobStore_new(
        &NavAbilityClient_new(&c("url"), &c("org"), &c("tok")).unwrap(),
        &c("default"),
    )
    .unwrap();
    free_NavAbilityBlobStore(Some(store));
    // The descriptor variant of the same round trip, with live counting.
    let items = vec![witness.clone(), witness.clone(), witness.clone()];
    assert_eq!(Rc::strong_count(&witness), 4);
    let desc = vec_to_ffi(items);
    assert_eq!(Rc::strong_count(&witness), 4);
    free_rvec(desc);
    assert_eq!(Rc::strong_count(&witness), 1);
}

fn literal_agent(label: &str) -> Agent {
    Agent::new(
        &Uuid::nil(),
        label.to_string(),
        String::new(),
        Vec::new(),
        Timestamp { secs: 0, nanos: 0 },
    )
}

#[test]
fn list_marshaling_keeps_order_and_frees_each_element_once() {
    // Scenario: a native list of 3 records becomes a descriptor of
    // length 3 with the records in original order; releasing it runs each
    // record's teardown exactly once.
    let agents = vec![literal_agent("x1"), literal_agent("x2"), literal_agent("x3")];
    let desc = vec_to_ffi(agents);
    assert_eq!(length(&desc), 3);
    let expected = ["x1", "x2", "x3"];
    for (i, want) in expected.iter().enumerate() {
        let agent = get_index(&desc, i);
        let label = getLabel_Agent(agent).expect("no interior NUL");
        assert_eq!(buffer_text(&label), *want);
        navabilitysdk::text::free_cstr(label);
    }
    free_rvecagent(Box::new(desc));

    // Destructor counting through an instrumented element type.
    let witness = Rc::new(0u8);
    let counted = vec![witness.clone(), witness.clone(), witness.clone()];
    let counted_desc = vec_to_ffi(counted);
    assert_eq!(length(&counted_desc), 3);
    assert_eq!(Rc::strong_count(&witness), 4);
    free_rvec(counted_desc);
    assert_eq!(Rc::strong_count(&witness), 1);
}

#[test]
fn borrowed_reads_leave_the_handle_usable() {
    // Borrow non-escape, exercised on the correct-caller path: reads
    // through borrows never consume the handle, and the handle stays
    // readable until its one destructor call. (The violating order of
    // operations cannot be written against this interface: a borrow from
    // a destroyed handle is rejected at compile time.)
    let dfg_client =
        NavAbilityClient_new(&c("url"), &c("00000000-0000-0000-0000-000000000000"), &c("t"))
            .unwrap();
    let dfg = NavAbilityDFG_new(&dfg_client, &c("graph1"), &c("agent1"), None).unwrap();
    let store_label = getLabel_NavAbilityBlobStore(&dfg.blob_stores[0]).unwrap();
    assert_eq!(buffer_text(&store_label), "default");
    navabilitysdk::text::free_cstr(store_label);
    let graph_label = navabilitysdk::capi::getLabel_NavAbilityDFG(&dfg).unwrap();
    assert_eq!(buffer_text(&graph_label), "graph1");
    navabilitysdk::text::free_cstr(graph_label);
    free_NavAbilityDFG(Some(dfg));
    free_NavAbilityClient(Some(dfg_client));
}

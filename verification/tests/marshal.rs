//! Tests for the byte-level marshalers: text buffers, identifiers,
//! timestamps and decimal spellings, cross-checked against the underlying
//! libraries where one is relied on.

use navabilitysdk::ids::Uuid;
use navabilitysdk::numbers::i64_dec_string;
use navabilitysdk::numbers::parse_i64;
use navabilitysdk::numbers::u64_dec_string;
use navabilitysdk::text::convert_str;
use navabilitysdk::text::cstr_to_str;
use navabilitysdk::text::free_cstr;
use navabilitysdk::time::parse_str_utc;
use navabilitysdk::MarshalError;

#[test]
fn text_round_trip() {
    // Buffer fidelity: from_foreign(to_foreign(s)) == s for valid UTF-8.
    for s in ["", "hello", "naïve käse 日本語", "with spaces and / punctuation"] {
        let buf = convert_str(s).expect("no interior NUL");
        assert_eq!(buf.raw_bytes().last(), Some(&0u8));
        let back = cstr_to_str(buf.raw_bytes()).expect("buffer holds valid text");
        assert_eq!(back, s);
        free_cstr(buf);
    }
}

#[test]
fn text_rejects_interior_nul() {
    assert!(matches!(convert_str("a\0b"), Err(MarshalError::InteriorNul)));
}

#[test]
fn foreign_text_is_validated() {
    // Valid UTF-8 with a terminator decodes; bytes after the terminator
    // are ignored.
    let v = vec![b'h', b'i', 0, b'x'];
    assert_eq!(cstr_to_str(&v).unwrap(), "hi");
    // Invalid UTF-8 before the terminator is rejected, not truncated.
    let bad = vec![0xc3, 0x28, 0];
    assert!(matches!(cstr_to_str(&bad), Err(MarshalError::InvalidUtf8)));
    // A missing terminator is rejected.
    let unterminated = vec![b'h', b'i'];
    assert!(matches!(cstr_to_str(&unterminated), Err(MarshalError::MissingNul)));
}

#[test]
fn uuid_text_round_trip() {
    let u = Uuid { hi: 0xa1a2a3a4b1b2c1c2, lo: 0xd1d2d3d4d5d6d7d8 };
    let text = u.hyphenated();
    assert_eq!(text, "a1a2a3a4-b1b2-c1c2-d1d2-d3d4d5d6d7d8");
    let parsed = Uuid::parse_str(&text).unwrap();
    assert_eq!(parsed, u);
    // Uppercase digits are read too.
    let upper = Uuid::parse_str("A1A2A3A4-B1B2-C1C2-D1D2-D3D4D5D6D7D8").unwrap();
    assert_eq!(upper, u);
    // The spelling agrees with the identifier library this crate leans on.
    let reference = uuid::Uuid::from_u64_pair(u.hi, u.lo).to_string();
    assert_eq!(text, reference);
}

#[test]
fn fresh_identifiers_spell_and_read_back() {
    // A freshly drawn identifier round-trips through its spelling.
    let entry = navabilitysdk::blob_entry::BlobEntry::new();
    let spelled = entry.blob_id.hyphenated();
    assert_eq!(spelled.len(), 36);
    assert_eq!(Uuid::parse_str(&spelled).unwrap(), entry.blob_id);
}

#[test]
fn uuid_rejects_malformed_text() {
    for bad in [
        "",
        "not-a-uuid",
        "a1a2a3a4b1b2c1c2d1d2d3d4d5d6d7d8",
        "a1a2a3a4-b1b2-c1c2-d1d2-d3d4d5d6d7dg",
        "a1a2a3a4-b1b2-c1c2-d1d2-d3d4d5d6d7d",
        "a1a2a3a4+b1b2-c1c2-d1d2-d3d4d5d6d7d8",
    ] {
        assert!(matches!(Uuid::parse_str(bad), Err(MarshalError::InvalidUuid)), "{bad}");
    }
}

#[test]
fn uuid_v5_matches_the_reference_derivation() {
    // The name-based wrapper must transform its inputs, not echo them:
    // compare against the identifier library's own derivation.
    let ns = Uuid::nil();
    let derived = ns.new_v5(b"agent1");
    let reference =
        uuid::Uuid::new_v5(&uuid::Uuid::from_u64_pair(0, 0), b"agent1").as_u64_pair();
    assert_eq!((derived.hi, derived.lo), reference);
    assert_ne!((derived.hi, derived.lo), (0, 0));
}

#[test]
fn parse_str_utc_reads_the_service_spellings() {
    // The two spellings the service answers with.
    let a = parse_str_utc("2024-09-03 02:31:39.367 UTC".to_string()).unwrap();
    let b = parse_str_utc("2024-10-28T20:56:35.270Z".to_string()).unwrap();
    // Cross-check against the calendar library directly.
    let expect_a = chrono::DateTime::parse_from_rfc3339("2024-09-03T02:31:39.367Z").unwrap();
    assert_eq!(a.secs, expect_a.timestamp());
    assert_eq!(a.nanos, expect_a.timestamp_subsec_nanos());
    let expect_b = chrono::DateTime::parse_from_rfc3339("2024-10-28T20:56:35.270Z").unwrap();
    assert_eq!(b.secs, expect_b.timestamp());
    assert_eq!(b.nanos, expect_b.timestamp_subsec_nanos());
    // Nonsense is rejected with the tagged error.
    assert!(matches!(
        parse_str_utc("yesterday-ish".to_string()),
        Err(MarshalError::InvalidTimestamp)
    ));
}

#[test]
fn timestamp_display_round_trips_through_parse() {
    let ts = parse_str_utc("2024-09-03 02:31:39.367 UTC".to_string()).unwrap();
    let spelled = ts.display_string_checked().expect("in displayable range");
    assert_eq!(spelled, "2024-09-03 02:31:39.367 UTC");
    let again = parse_str_utc(spelled).unwrap();
    assert_eq!(again, ts);
}

#[test]
fn leap_second_instants_display_only_at_the_minute_boundary() {
    // A leap-second nanosecond part is accepted exactly at a :59 second.
    let at_59 = navabilitysdk::time::Timestamp { secs: 59, nanos: 1_500_000_000 };
    let spelled = at_59.display_string_checked().expect("leap second at :59 displays");
    // The calendar library spells the leap instant as second 60.
    assert!(spelled.contains("1970-01-01 00:00:60"));
    // The second-of-minute is taken the Euclidean way for negative seconds.
    let before_epoch = navabilitysdk::time::Timestamp { secs: -1, nanos: 1_500_000_000 };
    assert!(before_epoch.display_string_checked().is_some());
    // Anywhere else, the instant is reported as not displayable instead of
    // aborting.
    let elsewhere = navabilitysdk::time::Timestamp { secs: 0, nanos: 1_500_000_000 };
    assert!(elsewhere.display_string_checked().is_none());
}

#[test]
fn decimal_spellings_are_exact() {
    assert_eq!(u64_dec_string(0), "0");
    assert_eq!(u64_dec_string(1024), "1024");
    assert_eq!(u64_dec_string(18446744073709551615), "18446744073709551615");
    assert_eq!(i64_dec_string(-42), "-42");
    assert_eq!(i64_dec_string(i64::MIN), "-9223372036854775808");
    assert_eq!(parse_i64("1024"), Some(1024));
    assert_eq!(parse_i64("+1024"), Some(1024));
    assert_eq!(parse_i64("-0"), Some(0));
    assert_eq!(parse_i64("-9223372036854775808"), Some(i64::MIN));
    assert_eq!(parse_i64("9223372036854775808"), None);
    assert_eq!(parse_i64(""), None);
    assert_eq!(parse_i64("ten"), None);
    assert_eq!(navabilitysdk::numbers::parse_usize("+7"), Some(7));
    assert_eq!(navabilitysdk::numbers::parse_usize("-7"), None);
}

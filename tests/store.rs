use fitbit_rs::credential::Credential;
use fitbit_rs::error::Error;
use fitbit_rs::store::{decode, encode};
use fitbit_rs::text::decimal;

fn credential(refresh: Option<&str>, expires_at: Option<u64>, scopes: &[&str]) -> Credential {
    Credential {
        access_token: "tok1".to_string(),
        refresh_token: refresh.map(|r| r.to_string()),
        token_type: "bearer".to_string(),
        expires_at,
        scopes: scopes.iter().map(|s| s.to_string()).collect(),
    }
}

fn same(a: &Credential, b: &Credential) -> bool {
    a.access_token == b.access_token
        && a.refresh_token == b.refresh_token
        && a.token_type == b.token_type
        && a.expires_at == b.expires_at
        && a.scopes == b.scopes
}

#[test]
fn encode_writes_compact_document() {
    let c = credential(Some("ref1"), None, &[]);
    assert_eq!(
        encode(&c),
        r#"{"access_token":"tok1","refresh_token":"ref1","token_type":"bearer"}"#
    );
    let c = credential(None, Some(1700000000), &["activity", "sleep"]);
    assert_eq!(
        encode(&c),
        r#"{"access_token":"tok1","token_type":"bearer","expires_at":1700000000,"scope":["activity","sleep"]}"#
    );
}

#[test]
fn round_trip_without_refresh_token() {
    let c = credential(None, None, &[]);
    let back = decode(&encode(&c)).unwrap();
    assert!(same(&c, &back));
    assert_eq!(back.refresh_token, None);
}

#[test]
fn round_trip_with_every_member() {
    let c = credential(Some("ref1"), Some(u64::MAX), &["heartrate", "weight", "profile"]);
    let back = decode(&encode(&c)).unwrap();
    assert!(same(&c, &back));
}

#[test]
fn round_trip_escapes_special_characters() {
    let mut c = credential(Some("a\"b\\c"), Some(0), &["x\ny", "é€"]);
    c.access_token = "t\u{1}\u{1f}\"".to_string();
    let doc = encode(&c);
    assert!(doc.contains(r#""t\u0001\u001f\"""#));
    let back = decode(&doc).unwrap();
    assert!(same(&c, &back));
}

#[test]
fn decode_reads_cache_file_written_by_hand() {
    let c = decode(r#"{"access_token":"tok1","refresh_token":"ref1","token_type":"bearer"}"#).unwrap();
    assert_eq!(c.access_token, "tok1");
    assert_eq!(c.refresh_token.as_deref(), Some("ref1"));
    assert_eq!(c.token_type, "bearer");
    assert_eq!(c.expires_at, None);
    assert!(c.scopes.is_empty());
}

#[test]
fn decode_rejects_corrupt_documents() {
    for text in [
        "",
        "{}",
        "not json",
        r#"{"access_token":"tok1","token_type":"bearer""#,
        r#"{"access_token":"tok1","token_type":"bearer"} "#,
        r#"{"access_token":"","token_type":"bearer"}"#,
        r#"{"access_token":"tok1","token_type":"bearer","expires_at":18446744073709551616}"#,
        r#"{"access_token":"tok1","token_type":"bearer","scope":[]}"#,
        r#"{"access_token":"to\k","token_type":"bearer"}"#,
        "{\n  \"access_token\": \"tok1\",\n  \"token_type\": \"bearer\"\n}",
        r#"{"access_token":"tok1","token_type":"bearer","expires_at":007}"#,
        r#"{"access_token":"t\u0041","token_type":"bearer"}"#,
    ] {
        assert_eq!(decode(text).unwrap_err(), Error::Deserialization, "{}", text);
    }
}

#[test]
fn decimal_numerals() {
    assert_eq!(decimal(0), "0");
    assert_eq!(decimal(7), "7");
    assert_eq!(decimal(8080), "8080");
    assert_eq!(decimal(u64::MAX), "18446744073709551615");
}

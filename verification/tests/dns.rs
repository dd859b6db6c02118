use dns_failover::dns::{
    check_update_body, find_record_id, look_up, read_listing, record_id_from_body, records_url,
    request_headers, update_outcome, update_record, update_url, verdict, ListedRecord, Lookup,
    Verdict, AUTOMATIC_TTL,
};
use dns_failover::failure::FailureKind;

const LISTING: &str = r#"{
  "success": true,
  "result": [
    {"id": "aaa", "type": "AAAA", "name": "www.example.com", "content": "::1"},
    {"id": "bbb", "type": "A", "name": "other.example.com", "content": "1.1.1.1"},
    {"id": "ccc", "type": "A", "name": "www.example.com", "content": "2.2.2.2"},
    {"id": "ddd", "type": "A", "name": "www.example.com", "content": "3.3.3.3"}
  ]
}"#;

fn value(text: &str) -> serde_json::Value {
    serde_json::from_str(text).unwrap()
}

#[test]
fn addresses_of_the_two_calls() {
    assert_eq!(
        records_url("zone1"),
        "https://api.cloudflare.com/client/v4/zones/zone1/dns_records"
    );
    assert_eq!(
        update_url("zone1", "rec9"),
        "https://api.cloudflare.com/client/v4/zones/zone1/dns_records/rec9"
    );
    assert_eq!(
        update_url("zone1", ""),
        "https://api.cloudflare.com/client/v4/zones/zone1/dns_records/"
    );
}

#[test]
fn every_call_carries_the_three_headers() {
    let headers = request_headers("me@example.com", "SECRET-REDACTED");
    let pairs: Vec<(&str, &str)> =
        headers.iter().map(|h| (h.name.as_str(), h.value.as_str())).collect();
    assert_eq!(
        pairs,
        vec![
            ("X-Auth-Email", "me@example.com"),
            ("X-Auth-Key", "SECRET-REDACTED"),
            ("Content-Type", "application/json"),
        ]
    );
}

#[test]
fn update_writes_an_unproxied_a_record_with_automatic_ttl() {
    let record = update_record("www", "9.9.9.9");
    assert_eq!(record.record_type, "A");
    assert_eq!(record.name, "www");
    assert_eq!(record.content, "9.9.9.9");
    assert_eq!(record.ttl, 1);
    assert_eq!(record.ttl, AUTOMATIC_TTL);
    assert!(!record.proxied);
}

#[test]
fn first_matching_a_record_wins() {
    assert_eq!(find_record_id(&value(LISTING), "www.example.com"), Ok("ccc".to_string()));
    assert_eq!(record_id_from_body(LISTING.as_bytes(), "www.example.com").unwrap(), "ccc");
    assert_eq!(record_id_from_body(LISTING.as_bytes(), "other.example.com").unwrap(), "bbb");
}

#[test]
fn record_of_another_type_does_not_match() {
    let listing = r#"{"result":[{"id":"aaa","type":"AAAA","name":"www.example.com"}]}"#;
    assert_eq!(record_id_from_body(listing.as_bytes(), "www.example.com").unwrap(), "");
}

#[test]
fn no_matching_record_gives_the_empty_id() {
    assert_eq!(record_id_from_body(LISTING.as_bytes(), "absent.example.com").unwrap(), "");
    assert_eq!(record_id_from_body(br#"{"result":[]}"#, "www.example.com").unwrap(), "");
}

#[test]
fn listing_without_an_array_is_invalid() {
    let body = br#"{"success":false,"errors":[{"code":9103}]}"#;
    let failure = record_id_from_body(body, "www.example.com").unwrap_err();
    assert_eq!(failure.kind, FailureKind::HttpFormat);
    assert_eq!(
        failure.detail,
        r#"Invalid response: {"errors":[{"code":9103}],"success":false}"#
    );
    assert_eq!(failure.body, body.to_vec());
    let failure = record_id_from_body(br#"{"result":{"id":"x"}}"#, "www.example.com").unwrap_err();
    assert_eq!(failure.detail, r#"Invalid response: {"result":{"id":"x"}}"#);
    let failure = record_id_from_body(b"[1,2]", "www.example.com").unwrap_err();
    assert_eq!(failure.detail, "Invalid response: [1,2]");
}

#[test]
fn record_without_type_or_name_is_invalid() {
    let no_type = r#"{"result":[{"id":"x","name":"www.example.com"}]}"#;
    let failure = record_id_from_body(no_type.as_bytes(), "www.example.com").unwrap_err();
    assert_eq!(failure.kind, FailureKind::HttpFormat);
    assert_eq!(failure.detail, format!("Invalid response: {}", no_type));
    let no_name = r#"{"result":[{"id":"x","type":"A"}]}"#;
    let failure = record_id_from_body(no_name.as_bytes(), "www.example.com").unwrap_err();
    assert_eq!(failure.detail, format!("Invalid response: {}", no_name));
    let number_name = r#"{"result":[{"id":"x","name":7,"type":"A"}]}"#;
    assert!(record_id_from_body(number_name.as_bytes(), "www.example.com").is_err());
}

#[test]
fn matching_record_without_an_id_is_invalid() {
    let listing = r#"{"result":[{"name":"www.example.com","type":"A"}]}"#;
    let failure = record_id_from_body(listing.as_bytes(), "www.example.com").unwrap_err();
    assert_eq!(failure.detail, format!("Invalid response: {}", listing));
    assert_eq!(
        find_record_id(&value(listing), "www.example.com"),
        Err(format!("Invalid response: {}", listing))
    );
}

#[test]
fn records_behind_the_match_are_not_looked_at() {
    let listing = r#"{"result":[{"id":"x","name":"www.example.com","type":"A"},{"bad":true}]}"#;
    assert_eq!(record_id_from_body(listing.as_bytes(), "www.example.com").unwrap(), "x");
}

#[test]
fn records_before_the_match_are_looked_at() {
    let listing = r#"{"result":[{"bad":true},{"id":"x","name":"www.example.com","type":"A"}]}"#;
    assert!(record_id_from_body(listing.as_bytes(), "www.example.com").is_err());
}

#[test]
fn listing_that_is_no_json_is_a_failure_with_the_body() {
    let failure = record_id_from_body(b"<html>502</html>", "www.example.com").unwrap_err();
    assert_eq!(failure.kind, FailureKind::HttpFormat);
    assert_eq!(failure.detail, "expected value at line 1 column 1");
    assert_eq!(failure.body, b"<html>502</html>".to_vec());
}

#[test]
fn update_succeeds_only_on_a_true_flag() {
    assert!(check_update_body(br#"{"success":true,"result":{"id":"x"}}"#).is_ok());
    assert_eq!(update_outcome(&value(r#"{"success":true}"#)), Ok(()));
}

#[test]
fn false_flag_is_upload_failed() {
    let body = br#"{"success":false,"errors":[{"code":81044,"message":"Record does not exist."}]}"#;
    let failure = check_update_body(body).unwrap_err();
    assert_eq!(failure.kind, FailureKind::HttpFormat);
    assert_eq!(failure.detail, "Upload failed");
    assert_eq!(failure.body, body.to_vec());
    assert_eq!(update_outcome(&value(r#"{"success":false}"#)), Err("Upload failed".to_string()));
}

#[test]
fn answer_without_a_flag_is_invalid() {
    let failure = check_update_body(br#"{"result":null}"#).unwrap_err();
    assert_eq!(failure.kind, FailureKind::HttpFormat);
    assert_eq!(failure.detail, r#"Invalid response: {"result":null}"#);
    let failure = check_update_body(br#"{"success":"true"}"#).unwrap_err();
    assert_eq!(failure.detail, r#"Invalid response: {"success":"true"}"#);
    let failure = check_update_body(b"null").unwrap_err();
    assert_eq!(failure.detail, "Invalid response: null");
}

#[test]
fn answer_that_is_no_json_is_a_failure_with_the_body() {
    let failure = check_update_body(b"").unwrap_err();
    assert_eq!(failure.kind, FailureKind::HttpFormat);
    assert_eq!(failure.detail, "EOF while parsing a value at line 1 column 0");
    assert!(failure.body.is_empty());
    let failure = check_update_body(&[0xff, 0xfe]).unwrap_err();
    assert_eq!(failure.kind, FailureKind::HttpFormat);
    assert_eq!(failure.body, vec![0xff, 0xfe]);
}

fn listed(record_type: Option<&str>, name: Option<&str>, id: Option<&str>) -> ListedRecord {
    ListedRecord {
        record_type: record_type.map(String::from),
        name: name.map(String::from),
        id: id.map(String::from),
    }
}

#[test]
fn look_up_stops_at_the_first_a_record_of_the_host() {
    let records = vec![
        listed(Some("AAAA"), Some("www"), Some("a")),
        listed(Some("A"), Some("mail"), Some("b")),
        listed(Some("A"), Some("www"), Some("c")),
        listed(Some("A"), Some("www"), Some("d")),
        listed(None, None, None),
    ];
    assert!(matches!(look_up(&records, "www"), Lookup::Found(id) if id == "c"));
    assert!(matches!(look_up(&records, "mail"), Lookup::Found(id) if id == "b"));
    assert!(matches!(look_up(&records, "absent"), Lookup::Invalid));
    assert!(matches!(look_up(&records[..4].to_vec(), "absent"), Lookup::Absent));
    assert!(matches!(look_up(&Vec::new(), "www"), Lookup::Absent));
}

#[test]
fn look_up_wants_type_and_name_of_every_record_it_passes() {
    let target = listed(Some("A"), Some("www"), Some("c"));
    let no_type = vec![listed(None, Some("www"), Some("x")), target.clone()];
    assert!(matches!(look_up(&no_type, "www"), Lookup::Invalid));
    let no_name = vec![listed(Some("A"), None, Some("x")), target.clone()];
    assert!(matches!(look_up(&no_name, "www"), Lookup::Invalid));
    let no_id_elsewhere = vec![listed(Some("A"), Some("mail"), None), target];
    assert!(matches!(look_up(&no_id_elsewhere, "www"), Lookup::Found(id) if id == "c"));
    let no_id = vec![listed(Some("A"), Some("www"), None)];
    assert!(matches!(look_up(&no_id, "www"), Lookup::Invalid));
}

#[test]
fn look_up_compares_type_and_name_exactly() {
    let records = vec![
        listed(Some("a"), Some("www"), Some("x")),
        listed(Some("A"), Some("WWW"), Some("y")),
    ];
    assert!(matches!(look_up(&records, "www"), Lookup::Absent));
}

#[test]
fn verdict_accepts_only_a_true_flag() {
    assert_eq!(verdict(Some(true)), Verdict::Accepted);
    assert_eq!(verdict(Some(false)), Verdict::Refused);
    assert_eq!(verdict(None), Verdict::Unclear);
}

#[test]
fn read_listing_keeps_what_is_text() {
    let records = read_listing(&value(
        r#"{"result":[{"id":"x","name":"www","type":"A"},{"id":7,"type":null},"text"]}"#,
    ))
    .unwrap();
    assert_eq!(records.len(), 3);
    assert_eq!(records[0].record_type.as_deref(), Some("A"));
    assert_eq!(records[0].name.as_deref(), Some("www"));
    assert_eq!(records[0].id.as_deref(), Some("x"));
    for record in &records[1..] {
        assert!(record.record_type.is_none() && record.name.is_none() && record.id.is_none());
    }
    assert!(read_listing(&value(r#"{"result":"none"}"#)).is_none());
    assert!(read_listing(&value(r#"{"success":true}"#)).is_none());
    assert_eq!(read_listing(&value(r#"{"result":[]}"#)).unwrap().len(), 0);
}

//! The DNS publisher: what is asked of the provider, and what its answers
//! mean.
//!
//! Publishing takes two calls. The first lists the records of the zone; the
//! record to change is the first A record in that list whose name is the
//! configured host name, in the order in which the provider lists them. The
//! second replaces the content of that record. Where the list holds no such
//! record the second call is addressed to an empty record id, which the
//! provider turns down.

use crate::failure::{FailureKind, FailureModel, StepFailure};
use crate::json::{
    decode, document_of, flag, flag_of, items, items_of, member, member_of, rendering,
    rendering_of, text, text_of,
};
use crate::text::{joined, same_text};
use vstd::prelude::*;
use vstd::string::*;

verus! {

/// The time to live that stands for "automatic".
pub const AUTOMATIC_TTL: u32 = 1;

/// Where the zones of the provider's API are found.
pub open spec fn zones_base() -> Seq<char> {
    "https://api.cloudflare.com/client/v4/zones/"@
}

/// The address that lists the records of a zone.
pub open spec fn records_address(zone_id: Seq<char>) -> Seq<char> {
    zones_base() + zone_id + "/dns_records"@
}

/// The address of one record of a zone.
pub open spec fn record_address(zone_id: Seq<char>, record_id: Seq<char>) -> Seq<char> {
    records_address(zone_id) + "/"@ + record_id
}

/// Builds the address that lists the records of a zone.
pub fn records_url(zone_id: &str) -> (url: String)
    ensures
        url@ == records_address(zone_id@),
{
    let mut url = joined("https://api.cloudflare.com/client/v4/zones/", zone_id);
    url.append("/dns_records");
    url
}

/// Builds the address of one record of a zone.
pub fn update_url(zone_id: &str, record_id: &str) -> (url: String)
    ensures
        url@ == record_address(zone_id@, record_id@),
{
    let mut url = records_url(zone_id);
    url.append("/");
    url.append(record_id);
    url
}

/// One header of a request.
#[derive(Clone, Debug)]
pub struct Header {
    pub name: String,
    pub value: String,
}

/// A header as plain values.
pub struct HeaderView {
    pub name: Seq<char>,
    pub value: Seq<char>,
}

impl View for Header {
    type V = HeaderView;

    open spec fn view(&self) -> HeaderView {
        HeaderView { name: self.name@, value: self.value@ }
    }
}

/// The views of a list of headers.
pub open spec fn header_views(headers: Seq<Header>) -> Seq<HeaderView> {
    headers.map_values(|h: Header| h@)
}

/// The headers that every call carries: who calls, the key, and that bodies
/// are JSON.
pub open spec fn call_headers(auth_email: Seq<char>, auth_key: Seq<char>) -> Seq<HeaderView> {
    seq![
        HeaderView { name: "X-Auth-Email"@, value: auth_email },
        HeaderView { name: "X-Auth-Key"@, value: auth_key },
        HeaderView { name: "Content-Type"@, value: "application/json"@ },
    ]
}

/// Builds the headers that every call carries.
pub fn request_headers(auth_email: &str, auth_key: &str) -> (headers: Vec<Header>)
    ensures
        header_views(headers@) == call_headers(auth_email@, auth_key@),
{
    let mut headers: Vec<Header> = Vec::new();
    headers.push(Header { name: "X-Auth-Email".to_owned(), value: auth_email.to_owned() });
    headers.push(Header { name: "X-Auth-Key".to_owned(), value: auth_key.to_owned() });
    headers.push(Header { name: "Content-Type".to_owned(), value: "application/json".to_owned() });
    assert(header_views(headers@) =~= call_headers(auth_email@, auth_key@));
    headers
}

/// The record that an update writes.
#[derive(Clone, Debug)]
pub struct DnsRecord {
    pub record_type: String,
    pub name: String,
    pub content: String,
    pub ttl: u32,
    pub proxied: bool,
}

/// A record as plain values.
pub struct RecordView {
    pub record_type: Seq<char>,
    pub name: Seq<char>,
    pub content: Seq<char>,
    pub ttl: u32,
    pub proxied: bool,
}

impl View for DnsRecord {
    type V = RecordView;

    open spec fn view(&self) -> RecordView {
        RecordView {
            record_type: self.record_type@,
            name: self.name@,
            content: self.content@,
            ttl: self.ttl,
            proxied: self.proxied,
        }
    }
}

/// The A record that serves `ip` under `name`: automatic time to live, not
/// proxied.
pub open spec fn a_record(name: Seq<char>, ip: Seq<char>) -> RecordView {
    RecordView { record_type: "A"@, name, content: ip, ttl: AUTOMATIC_TTL, proxied: false }
}

/// Builds the record that an update writes.
pub fn update_record(name: &str, ip: &str) -> (record: DnsRecord)
    ensures
        record@ == a_record(name@, ip@),
{
    DnsRecord {
        record_type: "A".to_owned(),
        name: name.to_owned(),
        content: ip.to_owned(),
        ttl: AUTOMATIC_TTL,
        proxied: false,
    }
}

/// One record of the zone's listing, as far as the publisher reads it. A
/// field is there only where the listing states it as text.
#[derive(Clone, Debug)]
pub struct ListedRecord {
    pub record_type: Option<String>,
    pub name: Option<String>,
    pub id: Option<String>,
}

/// A listed record as plain values.
pub struct ListedRecordView {
    pub record_type: Option<Seq<char>>,
    pub name: Option<Seq<char>>,
    pub id: Option<Seq<char>>,
}

/// The view of a text that may be missing.
pub open spec fn optional_view(text: Option<String>) -> Option<Seq<char>> {
    match text {
        Some(t) => Some(t@),
        None => None,
    }
}

impl View for ListedRecord {
    type V = ListedRecordView;

    open spec fn view(&self) -> ListedRecordView {
        ListedRecordView {
            record_type: optional_view(self.record_type),
            name: optional_view(self.name),
            id: optional_view(self.id),
        }
    }
}

/// The views of a list of records.
pub open spec fn listed_views(records: Seq<ListedRecord>) -> Seq<ListedRecordView> {
    records.map_values(|r: ListedRecord| r@)
}

/// What looking through the listed records comes to.
#[derive(Clone, Debug)]
pub enum Lookup {
    /// The id of the first A record of the host name.
    Found(String),
    /// No A record of the host name is listed.
    Absent,
    /// A record looked at has no text where text is due.
    Invalid,
}

/// A lookup as plain values.
pub enum LookupView {
    Found(Seq<char>),
    Absent,
    Invalid,
}

impl View for Lookup {
    type V = LookupView;

    open spec fn view(&self) -> LookupView {
        match self {
            Lookup::Found(id) => LookupView::Found(id@),
            Lookup::Absent => LookupView::Absent,
            Lookup::Invalid => LookupView::Invalid,
        }
    }
}

/// Whether a listed record is an A record of the host name.
pub open spec fn is_target(record: ListedRecordView, host: Seq<char>) -> bool {
    record.record_type == Some("A"@) && record.name == Some(host)
}

/// Looks through the records in order and stops at the first A record of
/// the host name. Every record looked at must state its type and its name
/// as text, and the one stopped at its id as well; records after it are not
/// looked at.
pub open spec fn scan(records: Seq<ListedRecordView>, host: Seq<char>) -> LookupView
    decreases records.len(),
{
    if records.len() == 0 {
        LookupView::Absent
    } else if records[0].record_type is None || records[0].name is None {
        LookupView::Invalid
    } else if is_target(records[0], host) {
        match records[0].id {
            Some(id) => LookupView::Found(id),
            None => LookupView::Invalid,
        }
    } else {
        scan(records.drop_first(), host)
    }
}

/// Whether each of the first `upto` records states its type and its name
/// and is no A record of the host name.
pub open spec fn passed_over(records: Seq<ListedRecordView>, host: Seq<char>, upto: int) -> bool {
    forall|j: int|
        0 <= j < upto ==> (#[trigger] records[j]).record_type is Some && records[j].name is Some
            && !is_target(records[j], host)
}

/// The first match wins: where record `at` is an A record of the host name
/// and no record before it is, the lookup finds the id of that record,
/// whatever follows it.
pub proof fn law_first_match_wins(records: Seq<ListedRecordView>, host: Seq<char>, at: int)
    requires
        0 <= at < records.len(),
        passed_over(records, host, at),
        is_target(records[at], host),
    ensures
        scan(records, host) == match records[at].id {
            Some(id) => LookupView::Found(id),
            None => LookupView::Invalid,
        },
    decreases at,
{
    if at > 0 {
        let rest = records.drop_first();
        assert(records[0].record_type is Some && !is_target(records[0], host));
        assert forall|j: int| 0 <= j < at - 1 implies (#[trigger] rest[j]).record_type is Some
            && rest[j].name is Some && !is_target(rest[j], host) by {
            assert(rest[j] == records[j + 1]);
        }
        assert(rest[at - 1] == records[at]);
        law_first_match_wins(rest, host, at - 1);
    }
}

/// Where no record is an A record of the host name, and each states its type
/// and its name, the lookup finds none.
pub proof fn law_no_match_is_absent(records: Seq<ListedRecordView>, host: Seq<char>)
    requires
        passed_over(records, host, records.len() as int),
    ensures
        scan(records, host) == LookupView::Absent,
    decreases records.len(),
{
    if records.len() > 0 {
        let rest = records.drop_first();
        assert(records[0].record_type is Some && !is_target(records[0], host));
        assert forall|j: int| 0 <= j < rest.len() implies (#[trigger] rest[j]).record_type is Some
            && rest[j].name is Some && !is_target(rest[j], host) by {
            assert(rest[j] == records[j + 1]);
        }
        law_no_match_is_absent(rest, host);
    }
}

/// Looks through the listed records for the first A record of the host
/// name.
pub fn look_up(records: &Vec<ListedRecord>, host: &str) -> (found: Lookup)
    ensures
        found@ == scan(listed_views(records@), host@),
{
    let ghost views = listed_views(records@);
    let mut i: usize = 0;
    assert(views.subrange(0, views.len() as int) == views);
    while i < records.len()
        invariant
            i <= records.len(),
            views == listed_views(records@),
            views.len() == records.len(),
            scan(views, host@) == scan(views.subrange(i as int, views.len() as int), host@),
        decreases records.len() - i,
    {
        let ghost rest = views.subrange(i as int, views.len() as int);
        assert(rest[0] == records@[i as int]@);
        assert(rest.drop_first() == views.subrange(i + 1, views.len() as int));
        let record = &records[i];
        match (&record.record_type, &record.name) {
            (Some(record_type), Some(name)) => {
                if same_text(record_type.as_str(), "A") && same_text(name.as_str(), host) {
                    return match &record.id {
                        Some(id) => Lookup::Found(id.clone()),
                        None => Lookup::Invalid,
                    };
                }
            },
            _ => {
                return Lookup::Invalid;
            },
        }
        i = i + 1;
    }
    assert(views.subrange(i as int, views.len() as int).len() == 0);
    Lookup::Absent
}

/// What the provider's answer to an update says.
#[derive(Clone, Copy, Debug, PartialEq, Eq, Structural)]
pub enum Verdict {
    /// The update was accepted.
    Accepted,
    /// The update was turned down.
    Refused,
    /// The answer does not say.
    Unclear,
}

/// The verdict that a success flag stands for.
pub open spec fn verdict_of(success: Option<bool>) -> Verdict {
    match success {
        Some(true) => Verdict::Accepted,
        Some(false) => Verdict::Refused,
        None => Verdict::Unclear,
    }
}

/// Reads the verdict off the success flag of an answer: only a flag that is
/// there and true accepts.
pub fn verdict(success: Option<bool>) -> (v: Verdict)
    ensures
        v == verdict_of(success),
        v == Verdict::Accepted <==> success == Some(true),
{
    match success {
        Some(true) => Verdict::Accepted,
        Some(false) => Verdict::Refused,
        None => Verdict::Unclear,
    }
}

/// A record of the listing, read as far as it states text.
pub open spec fn listed(entry: serde_json::Value) -> ListedRecordView {
    ListedRecordView {
        record_type: text_of(member_of(entry, "type"@)),
        name: text_of(member_of(entry, "name"@)),
        id: text_of(member_of(entry, "id"@)),
    }
}

/// The records of a listing: the elements of its `result`, where that is an
/// array.
pub open spec fn listing_in(listing: serde_json::Value) -> Option<Seq<ListedRecordView>> {
    match items_of(member_of(listing, "result"@)) {
        None => None,
        Some(entries) => Some(entries.map_values(|entry: serde_json::Value| listed(entry))),
    }
}

/// What is said of a response that does not have the expected shape.
pub open spec fn invalid_response_text(response: serde_json::Value) -> Seq<char> {
    "Invalid response: "@ + rendering_of(response)
}

/// What is said of an update that the provider did not accept.
pub open spec fn upload_failed_text() -> Seq<char> {
    "Upload failed"@
}

/// The id of the record to update, read from the listing: the id of the
/// first A record of the host name, and the empty id where there is none.
/// A listing of another shape gives the error text.
pub open spec fn record_id_in(listing: serde_json::Value, host: Seq<char>) -> Result<
    Seq<char>,
    Seq<char>,
> {
    match listing_in(listing) {
        None => Err(invalid_response_text(listing)),
        Some(records) => match scan(records, host) {
            LookupView::Found(id) => Ok(id),
            LookupView::Absent => Ok(Seq::<char>::empty()),
            LookupView::Invalid => Err(invalid_response_text(listing)),
        },
    }
}

/// Whether the provider's answer to an update reports success; the error
/// text where it does not, or does not say.
pub open spec fn update_outcome_in(response: serde_json::Value) -> Result<(), Seq<char>> {
    match verdict_of(flag_of(member_of(response, "success"@))) {
        Verdict::Unclear => Err(invalid_response_text(response)),
        Verdict::Refused => Err(upload_failed_text()),
        Verdict::Accepted => Ok(()),
    }
}

/// A failure read from the body of a response.
pub open spec fn response_failure(detail: Seq<char>, body: Seq<u8>) -> FailureModel {
    FailureModel { kind: FailureKind::HttpFormat, detail, body }
}

/// The id of the record to update, read from the body of the listing.
pub open spec fn record_id_of(body: Seq<u8>, host: Seq<char>) -> Result<Seq<char>, FailureModel> {
    match document_of(body) {
        Err(e) => Err(response_failure(e, body)),
        Ok(listing) => match record_id_in(listing, host) {
            Ok(id) => Ok(id),
            Err(detail) => Err(response_failure(detail, body)),
        },
    }
}

/// Whether the body of the answer to an update reports success.
pub open spec fn update_outcome_of(body: Seq<u8>) -> Result<(), FailureModel> {
    match document_of(body) {
        Err(e) => Err(response_failure(e, body)),
        Ok(response) => match update_outcome_in(response) {
            Ok(()) => Ok(()),
            Err(detail) => Err(response_failure(detail, body)),
        },
    }
}

/// Builds the text that is said of a response of the wrong shape.
fn invalid_response(response: &serde_json::Value) -> (detail: String)
    ensures
        detail@ == invalid_response_text(*response),
{
    let shown = rendering(response);
    joined("Invalid response: ", shown.as_str())
}

/// Reads the member of the given name where it is text.
fn text_member(value: &serde_json::Value, key: &str) -> (r: Option<String>)
    ensures
        optional_view(r) == text_of(member_of(*value, key@)),
{
    match text(member(value, key)) {
        Some(s) => Some(s.to_owned()),
        None => None,
    }
}

/// Reads the records out of a decoded listing; none where the listing has
/// no array of them.
pub fn read_listing(listing: &serde_json::Value) -> (r: Option<Vec<ListedRecord>>)
    ensures
        match r {
            Some(records) => listing_in(*listing) == Some(listed_views(records@)),
            None => listing_in(*listing) is None,
        },
{
    let entries = match items(member(listing, "result")) {
        None => {
            return None;
        },
        Some(entries) => entries,
    };
    let mut records: Vec<ListedRecord> = Vec::new();
    let mut i: usize = 0;
    while i < entries.len()
        invariant
            i <= entries.len(),
            records.len() == i,
            forall|k: int| 0 <= k < i ==> (#[trigger] records@[k])@ == listed(entries@[k]),
        decreases entries.len() - i,
    {
        let entry = &entries[i];
        let record = ListedRecord {
            record_type: text_member(entry, "type"),
            name: text_member(entry, "name"),
            id: text_member(entry, "id"),
        };
        records.push(record);
        i = i + 1;
    }
    assert(listed_views(records@) =~= entries@.map_values(
        |entry: serde_json::Value| listed(entry),
    ));
    Some(records)
}

/// Finds the id of the record to update in a decoded listing.
pub fn find_record_id(listing: &serde_json::Value, host: &str) -> (r: Result<String, String>)
    ensures
        match r {
            Ok(id) => record_id_in(*listing, host@) == Ok::<Seq<char>, Seq<char>>(id@),
            Err(detail) => record_id_in(*listing, host@) == Err::<Seq<char>, Seq<char>>(detail@),
        },
{
    match read_listing(listing) {
        None => Err(invalid_response(listing)),
        Some(records) => match look_up(&records, host) {
            Lookup::Found(id) => Ok(id),
            Lookup::Absent => Ok(String::new()),
            Lookup::Invalid => Err(invalid_response(listing)),
        },
    }
}

/// Reads the id of the record to update from the body of the listing. A
/// body that is no JSON document, or not a listing, is a failure that
/// carries the body.
pub fn record_id_from_body(body: &[u8], host: &str) -> (r: Result<String, StepFailure>)
    ensures
        match r {
            Ok(id) => record_id_of(body@, host@) == Ok::<Seq<char>, FailureModel>(id@),
            Err(f) => record_id_of(body@, host@) == Err::<Seq<char>, FailureModel>(f@),
        },
        r matches Err(f) ==> f.kind == FailureKind::HttpFormat && f.body@ == body@,
{
    match decode(body) {
        Err(e) => Err(StepFailure::from_response(e, body)),
        Ok(listing) => match find_record_id(&listing, host) {
            Ok(id) => Ok(id),
            Err(detail) => Err(StepFailure::from_response(detail, body)),
        },
    }
}

/// Tells whether a decoded answer to an update reports success.
pub fn update_outcome(response: &serde_json::Value) -> (r: Result<(), String>)
    ensures
        match r {
            Ok(()) => update_outcome_in(*response) == Ok::<(), Seq<char>>(()),
            Err(detail) => update_outcome_in(*response) == Err::<(), Seq<char>>(detail@),
        },
        r is Ok <==> flag_of(member_of(*response, "success"@)) == Some(true),
{
    match verdict(flag(member(response, "success"))) {
        Verdict::Unclear => Err(invalid_response(response)),
        Verdict::Refused => Err("Upload failed".to_owned()),
        Verdict::Accepted => Ok(()),
    }
}

/// Tells whether the body of the answer to an update reports success. A
/// body that is no JSON document, or does not say, is a failure that
/// carries the body.
pub fn check_update_body(body: &[u8]) -> (r: Result<(), StepFailure>)
    ensures
        match r {
            Ok(()) => update_outcome_of(body@) == Ok::<(), FailureModel>(()),
            Err(f) => update_outcome_of(body@) == Err::<(), FailureModel>(f@),
        },
        r matches Err(f) ==> f.kind == FailureKind::HttpFormat && f.body@ == body@,
{
    match decode(body) {
        Err(e) => Err(StepFailure::from_response(e, body)),
        Ok(response) => match update_outcome(&response) {
            Ok(()) => Ok(()),
            Err(detail) => Err(StepFailure::from_response(detail, body)),
        },
    }
}

} // verus!

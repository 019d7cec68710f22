//! Incremental pull of server rows into the local store: reading remote rows
//! as records, links and events, paging by a cursor column, and tallying what
//! was applied.

use crate::ids::{uuid_error_text, uuid_parse, Uuid};
use crate::json::{as_i64, as_str, get, get_i64, get_str, json_print, lookup, members, print_json, DocView, JsonDoc, JsonValue, JsonView, Members};
use crate::kinds::{CoreEventKind, CoreLinkKind, CoreRecordKind};
use crate::models::{CoreEvent, CoreLink, CoreRecord};
use crate::projections::parse_instant;
use crate::sync_error::SyncError;
use crate::text::{concat, opt_view, owned, views};
use crate::time::{now, parse_rfc3339, rfc3339_text, spec_max_dt, max_dt, to_rfc3339, Timestamp};
use vstd::prelude::*;

verus! {

/// Rows asked for per page.
pub const PAGE_SIZE: usize = 100;

/// What one pull applied.
#[derive(Debug, Clone)]
pub struct PullResult {
    pub records_pulled: u32,
    pub links_pulled: u32,
    pub events_pulled: u32,
    pub errors: Vec<String>,
    pub latest_updated_at: Option<Timestamp>,
}

/// The rows one pull fetched, and the latest cursor value among them.
#[derive(Debug, Clone)]
pub struct PullBatch {
    pub records: Vec<CoreRecord>,
    pub links: Vec<CoreLink>,
    pub events: Vec<CoreEvent>,
    pub latest_updated_at: Option<Timestamp>,
}

/// The string member `key`, if it is a string.
pub open spec fn str_member(m: Members, key: Seq<char>) -> Option<Seq<char>> {
    as_str(lookup(m, key))
}

/// The string member `key`, else `default`.
pub open spec fn str_or(m: Members, key: Seq<char>, default: Seq<char>) -> Seq<char> {
    match str_member(m, key) {
        Some(s) => s,
        None => default,
    }
}

/// The instant of member `key`, where it is RFC 3339 text.
pub open spec fn ts_member(m: Members, key: Seq<char>) -> Option<Timestamp> {
    parse_instant(str_member(m, key))
}

/// `t` is the instant of member `key`, or, where there is none, an instant
/// read from the clock.
pub open spec fn ts_or_now(t: Timestamp, m: Members, key: Seq<char>) -> bool {
    match ts_member(m, key) {
        Some(p) => t == p,
        None => t.in_range(),
    }
}

/// The integer member `key` taken to `i32` as `as` does, else `default`.
pub open spec fn i32_or(m: Members, key: Seq<char>, default: i64) -> i32 {
    (match as_i64(lookup(m, key)) {
        Some(v) => v,
        None => default,
    }) as i32
}

/// The text of a JSON member: a string as it is, any other value printed,
/// and `{}` where there is none.
pub open spec fn member_text(v: Option<JsonView>) -> Seq<char> {
    match v {
        Some(JsonView::Str(s)) => s,
        Some(other) => json_print(DocView::Value(other)),
        None => "{}"@,
    }
}

/// The outcome of reading UUID member `key`: its value, or the message of
/// why not.
pub open spec fn uuid_member(m: Members, key: Seq<char>) -> Result<Uuid, Seq<char>> {
    match str_member(m, key) {
        None => Err("missing "@ + key),
        Some(s) => match uuid_parse(s) {
            Some(v) => Ok(Uuid { value: v }),
            None => Err(uuid_error_text(s)),
        },
    }
}

/// The instant of an optional JSON value, where it is RFC 3339 text.
pub fn parse_ts(value: Option<&JsonValue>) -> (r: Option<Timestamp>)
    ensures
        r == parse_instant(match value {
            Some(v) => as_str(Some(v@)),
            None => None,
        }),
        r matches Some(t) ==> t.in_range(),
{
    match value {
        Some(JsonValue::Str(s)) => parse_rfc3339(s.as_str()),
        _ => None,
    }
}

/// The instant of member `key`, else the current instant.
fn ts_field_or_now(row: &Vec<(String, JsonValue)>, key: &str) -> (r: Timestamp)
    ensures
        ts_or_now(r, members(row@), key@),
        r.in_range(),
{
    match parse_ts(get(row, key)) {
        Some(t) => t,
        None => now(),
    }
}

/// The text of an optional JSON value (see `member_text`).
pub fn metadata_to_string(value: Option<&JsonValue>) -> (r: String)
    ensures
        r@ == member_text(match value {
            Some(v) => Some(v@),
            None => None,
        }),
{
    match value {
        Some(JsonValue::Str(s)) => s.clone(),
        Some(v) => print_json(&JsonDoc::Value(v.copy())),
        None => owned("{}"),
    }
}

/// Reads UUID member `key`: an error names a missing member or carries the
/// parser's message.
pub fn parse_uuid_field(row: &Vec<(String, JsonValue)>, key: &str) -> (r: Result<Uuid, SyncError>)
    ensures
        match uuid_member(members(row@), key@) {
            Ok(u) => r == Ok::<Uuid, SyncError>(u),
            Err(msg) => r matches Err(SyncError::Other { message }) && message@ == msg,
        },
{
    let raw = match get_str(row, key) {
        Some(s) => s,
        None => return Err(SyncError::Other { message: concat("missing ", key) }),
    };
    match Uuid::try_parse(raw.as_str()) {
        Ok(u) => Ok(u),
        Err(m) => Err(SyncError::Other { message: m }),
    }
}

/// The optional UUID of member `key`, where it is a parsable string.
fn optional_uuid_field(row: &Vec<(String, JsonValue)>, key: &str) -> (r: Option<Uuid>)
    ensures
        r == match str_member(members(row@), key@) {
            Some(s) => match uuid_parse(s) {
                Some(v) => Some(Uuid { value: v }),
                None => None,
            },
            None => None,
        },
{
    match get_str(row, key) {
        Some(s) => Uuid::parse_str(s.as_str()),
        None => None,
    }
}

/// The kind a remote record names (`email` when it names none), or the
/// message of why it cannot be read.
pub open spec fn remote_record_kind(m: Members) -> Result<CoreRecordKind, Seq<char>> {
    let raw = str_or(m, "kind"@, "email"@);
    match CoreRecordKind::from_wire(raw) {
        Some(k) => Ok(k),
        None => Err("unknown CORE kind: "@ + raw),
    }
}

/// A server row read as a record: the id must be a UUID and the kind known;
/// the other members default (title empty, status `active`, payload `{}`,
/// revision and schema version 1, origin `remote`), and a missing instant is
/// the current one.
pub fn record_from_remote(row: &Vec<(String, JsonValue)>) -> (r: Result<CoreRecord, SyncError>)
    ensures
        ({
            let m = members(row@);
            match (uuid_member(m, "id"@), remote_record_kind(m)) {
                (Err(msg), _) => r matches Err(SyncError::Other { message }) && message@ == msg,
                (Ok(_), Err(msg)) => r matches Err(SyncError::Other { message }) && message@ == msg,
                (Ok(id), Ok(kind)) => r matches Ok(rec) && {
                    &&& rec.id == id
                    &&& rec.kind == kind
                    &&& rec.title@ == str_or(m, "title"@, ""@)
                    &&& crate::text::opt_view(rec.summary) == str_member(m, "summary"@)
                    &&& rec.status@ == str_or(m, "status"@, "active"@)
                    &&& rec.payload_json@ == member_text(lookup(m, "payload_json"@))
                    &&& rec.source_record_id == match str_member(m, "source_record_id"@) {
                        Some(s) => match uuid_parse(s) {
                            Some(v) => Some(Uuid { value: v }),
                            None => None,
                        },
                        None => None,
                    }
                    &&& ts_or_now(rec.sort_at, m, "sort_at"@)
                    &&& ts_or_now(rec.created_at, m, "created_at"@)
                    &&& ts_or_now(rec.updated_at, m, "updated_at"@)
                    &&& rec.deleted_at == ts_member(m, "deleted_at"@)
                    &&& rec.revision == i32_or(m, "revision"@, 1)
                    &&& rec.schema_version == i32_or(m, "schema_version"@, 1)
                    &&& rec.origin_device_id@ == str_or(m, "origin_device_id"@, "remote"@)
                    &&& crate::text::opt_view(rec.external_id) == str_member(m, "external_id"@)
                    &&& rec.times_in_range()
                },
            }
        }),
{
    let id = parse_uuid_field(row, "id")?;
    let kind_raw = match get_str(row, "kind") {
        Some(s) => s,
        None => owned("email"),
    };
    let kind = match crate::models::parse_record_kind(kind_raw.as_str()) {
        Ok(k) => k,
        Err(e) => return Err(SyncError::Other { message: e }),
    };
    let payload_json = match get(row, "payload_json") {
        Some(JsonValue::Str(s)) => s.clone(),
        Some(v) => print_json(&JsonDoc::Value(v.copy())),
        None => owned("{}"),
    };
    let title = match get_str(row, "title") {
        Some(s) => s,
        None => owned(""),
    };
    let status = match get_str(row, "status") {
        Some(s) => s,
        None => owned("active"),
    };
    let origin = match get_str(row, "origin_device_id") {
        Some(s) => s,
        None => owned("remote"),
    };
    let revision = match get_i64(row, "revision") {
        Some(v) => v,
        None => 1,
    };
    let schema_version = match get_i64(row, "schema_version") {
        Some(v) => v,
        None => 1,
    };
    Ok(CoreRecord {
        id,
        kind,
        title,
        summary: get_str(row, "summary"),
        status,
        payload_json,
        source_record_id: optional_uuid_field(row, "source_record_id"),
        sort_at: ts_field_or_now(row, "sort_at"),
        created_at: ts_field_or_now(row, "created_at"),
        updated_at: ts_field_or_now(row, "updated_at"),
        deleted_at: parse_ts(get(row, "deleted_at")),
        revision: revision as i32,
        schema_version: schema_version as i32,
        origin_device_id: origin,
        external_id: get_str(row, "external_id"),
    })
}

/// The link kind a remote link names (`linked_record` when it names none),
/// or the message of why it cannot be read.
pub open spec fn remote_link_kind(m: Members) -> Result<CoreLinkKind, Seq<char>> {
    let raw = str_or(m, "kind"@, "linked_record"@);
    match CoreLinkKind::from_wire(raw) {
        Some(k) => Ok(k),
        None => Err("unknown CORE kind: "@ + raw),
    }
}

/// A server row read as a link: id, source and target must be UUIDs, read in
/// that order, and the kind known; the metadata is the text of member
/// `metadata_json`, and a missing creation instant is the current one.
pub fn link_from_remote(row: &Vec<(String, JsonValue)>) -> (r: Result<CoreLink, SyncError>)
    ensures
        ({
            let m = members(row@);
            match (uuid_member(m, "id"@), uuid_member(m, "source_record_id"@), uuid_member(m, "target_record_id"@), remote_link_kind(m)) {
                (Err(msg), _, _, _) => r matches Err(SyncError::Other { message }) && message@ == msg,
                (Ok(_), Err(msg), _, _) => r matches Err(SyncError::Other { message }) && message@ == msg,
                (Ok(_), Ok(_), Err(msg), _) => r matches Err(SyncError::Other { message }) && message@ == msg,
                (Ok(_), Ok(_), Ok(_), Err(msg)) => r matches Err(SyncError::Other { message }) && message@ == msg,
                (Ok(id), Ok(src), Ok(dst), Ok(kind)) => r matches Ok(l) && {
                    &&& l.id == id
                    &&& l.source_record_id == src
                    &&& l.target_record_id == dst
                    &&& l.kind == kind
                    &&& l.metadata_json@ == member_text(lookup(m, "metadata_json"@))
                    &&& ts_or_now(l.created_at, m, "created_at"@)
                },
            }
        }),
{
    let id = parse_uuid_field(row, "id")?;
    let source_record_id = parse_uuid_field(row, "source_record_id")?;
    let target_record_id = parse_uuid_field(row, "target_record_id")?;
    let kind_raw = match get_str(row, "kind") {
        Some(s) => s,
        None => owned("linked_record"),
    };
    let kind = match CoreLinkKind::parse(kind_raw.as_str()) {
        Ok(k) => k,
        Err(e) => return Err(SyncError::Other { message: e.message() }),
    };
    Ok(CoreLink {
        id,
        source_record_id,
        target_record_id,
        kind,
        metadata_json: metadata_to_string(get(row, "metadata_json")),
        created_at: ts_field_or_now(row, "created_at"),
    })
}

/// The event kind a remote event names (`record_updated` when it names
/// none), or the message of why it cannot be read.
pub open spec fn remote_event_kind(m: Members) -> Result<CoreEventKind, Seq<char>> {
    let raw = str_or(m, "kind"@, "record_updated"@);
    match CoreEventKind::from_wire(raw) {
        Some(k) => Ok(k),
        None => Err("unknown CORE kind: "@ + raw),
    }
}

/// A server row read as an event: id and record id must be UUIDs, read in
/// that order, and the kind known; the payload is the text of member
/// `payload_json`, the actor defaults to `system`, the origin to `remote`, the
/// base revision to 0, and a missing instant is the current one.
pub fn event_from_remote(row: &Vec<(String, JsonValue)>) -> (r: Result<CoreEvent, SyncError>)
    ensures
        ({
            let m = members(row@);
            match (uuid_member(m, "id"@), uuid_member(m, "record_id"@), remote_event_kind(m)) {
                (Err(msg), _, _) => r matches Err(SyncError::Other { message }) && message@ == msg,
                (Ok(_), Err(msg), _) => r matches Err(SyncError::Other { message }) && message@ == msg,
                (Ok(_), Ok(_), Err(msg)) => r matches Err(SyncError::Other { message }) && message@ == msg,
                (Ok(id), Ok(rid), Ok(kind)) => r matches Ok(e) && {
                    &&& e.id == id
                    &&& e.record_id == rid
                    &&& e.kind == kind
                    &&& e.payload_json@ == member_text(lookup(m, "payload_json"@))
                    &&& ts_or_now(e.occurred_at, m, "occurred_at"@)
                    &&& e.actor_type@ == str_or(m, "actor_type"@, "system"@)
                    &&& crate::text::opt_view(e.actor_id) == str_member(m, "actor_id"@)
                    &&& e.origin_device_id@ == str_or(m, "origin_device_id"@, "remote"@)
                    &&& e.base_revision == i32_or(m, "base_revision"@, 0)
                    &&& ts_or_now(e.created_at, m, "created_at"@)
                },
            }
        }),
{
    let id = parse_uuid_field(row, "id")?;
    let record_id = parse_uuid_field(row, "record_id")?;
    let kind_raw = match get_str(row, "kind") {
        Some(s) => s,
        None => owned("record_updated"),
    };
    let kind = match CoreEventKind::parse(kind_raw.as_str()) {
        Ok(k) => k,
        Err(e) => return Err(SyncError::Other { message: e.message() }),
    };
    let actor_type = match get_str(row, "actor_type") {
        Some(s) => s,
        None => owned("system"),
    };
    let origin = match get_str(row, "origin_device_id") {
        Some(s) => s,
        None => owned("remote"),
    };
    let base_revision = match get_i64(row, "base_revision") {
        Some(v) => v,
        None => 0,
    };
    Ok(CoreEvent {
        id,
        record_id,
        kind,
        payload_json: metadata_to_string(get(row, "payload_json")),
        occurred_at: ts_field_or_now(row, "occurred_at"),
        actor_type,
        actor_id: get_str(row, "actor_id"),
        origin_device_id: origin,
        base_revision: base_revision as i32,
        created_at: ts_field_or_now(row, "created_at"),
    })
}

/// Whether a pulled record replaces the local one: always, unless the local
/// copy has a newer revision.
pub fn should_apply_remote(local_revision: Option<i32>, remote_revision: i32) -> (r: bool)
    ensures
        r == !(local_revision matches Some(l) && l > remote_revision),
{
    match local_revision {
        Some(l) => !(l > remote_revision),
        None => true,
    }
}

/// The message recorded for a row that could not be applied.
pub open spec fn apply_error(what: Seq<char>, id: Uuid, error: Seq<char>) -> Seq<char> {
    what + " "@ + crate::ids::uuid_text(id.value) + ": "@ + error
}

fn error_line(what: &str, id: Uuid, error: &str) -> (r: String)
    ensures
        r@ == apply_error(what@, id, error@),
{
    let mut m = owned(what);
    m.append(" ");
    let t = id.to_text();
    m.append(t.as_str());
    m.append(": ");
    m.append(error);
    m
}

impl PullResult {
    /// A pull that has applied nothing yet, with the batch's latest cursor
    /// value.
    pub fn starting(latest_updated_at: Option<Timestamp>) -> (r: PullResult)
        ensures
            r.records_pulled == 0,
            r.links_pulled == 0,
            r.events_pulled == 0,
            r.errors@.len() == 0,
            r.latest_updated_at == latest_updated_at,
    {
        PullResult { records_pulled: 0, links_pulled: 0, events_pulled: 0, errors: Vec::new(), latest_updated_at }
    }

    /// Tallies one record: counted when it was written, nothing when the
    /// local copy was newer, and a line `record <id>: <error>` when writing
    /// it failed.
    pub fn count_record(&mut self, outcome: Result<bool, String>, id: Uuid)
        requires
            old(self).records_pulled < u32::MAX,
        ensures
            final(self).links_pulled == old(self).links_pulled,
            final(self).events_pulled == old(self).events_pulled,
            final(self).latest_updated_at == old(self).latest_updated_at,
            match outcome {
                Ok(true) => final(self).records_pulled == old(self).records_pulled + 1
                    && final(self).errors@ == old(self).errors@,
                Ok(false) => final(self).records_pulled == old(self).records_pulled
                    && final(self).errors@ == old(self).errors@,
                Err(e) => final(self).records_pulled == old(self).records_pulled
                    && views(final(self).errors@) == views(old(self).errors@).push(apply_error("record"@, id, e@)),
            },
    {
        match outcome {
            Ok(true) => {
                self.records_pulled = self.records_pulled + 1;
            },
            Ok(false) => {},
            Err(e) => {
                let line = error_line("record", id, e.as_str());
                self.errors.push(line);
                assert(views(self.errors@) =~= views(old(self).errors@).push(apply_error("record"@, id, e@)));
            },
        }
    }

    /// Tallies one link: counted when it was written, else a line
    /// `link <id>: <error>`.
    pub fn count_link(&mut self, outcome: Result<(), String>, id: Uuid)
        requires
            old(self).links_pulled < u32::MAX,
        ensures
            final(self).records_pulled == old(self).records_pulled,
            final(self).events_pulled == old(self).events_pulled,
            final(self).latest_updated_at == old(self).latest_updated_at,
            match outcome {
                Ok(()) => final(self).links_pulled == old(self).links_pulled + 1
                    && final(self).errors@ == old(self).errors@,
                Err(e) => final(self).links_pulled == old(self).links_pulled
                    && views(final(self).errors@) == views(old(self).errors@).push(apply_error("link"@, id, e@)),
            },
    {
        match outcome {
            Ok(()) => {
                self.links_pulled = self.links_pulled + 1;
            },
            Err(e) => {
                let line = error_line("link", id, e.as_str());
                self.errors.push(line);
                assert(views(self.errors@) =~= views(old(self).errors@).push(apply_error("link"@, id, e@)));
            },
        }
    }

    /// Tallies one event: counted when it was written, else a line
    /// `event <id>: <error>`.
    pub fn count_event(&mut self, outcome: Result<(), String>, id: Uuid)
        requires
            old(self).events_pulled < u32::MAX,
        ensures
            final(self).records_pulled == old(self).records_pulled,
            final(self).links_pulled == old(self).links_pulled,
            final(self).latest_updated_at == old(self).latest_updated_at,
            match outcome {
                Ok(()) => final(self).events_pulled == old(self).events_pulled + 1
                    && final(self).errors@ == old(self).errors@,
                Err(e) => final(self).events_pulled == old(self).events_pulled
                    && views(final(self).errors@) == views(old(self).errors@).push(apply_error("event"@, id, e@)),
            },
    {
        match outcome {
            Ok(()) => {
                self.events_pulled = self.events_pulled + 1;
            },
            Err(e) => {
                let line = error_line("event", id, e.as_str());
                self.errors.push(line);
                assert(views(self.errors@) =~= views(old(self).errors@).push(apply_error("event"@, id, e@)));
            },
        }
    }
}

/// How many of a batch's record outcomes wrote the record (`Ok(true)`).
pub open spec fn written_records(outcomes: Seq<(Uuid, Result<bool, String>)>) -> nat
    decreases outcomes.len(),
{
    if outcomes.len() == 0 {
        0
    } else {
        written_records(outcomes.drop_last()) + if outcomes.last().1 matches Ok(true) { 1nat } else { 0nat }
    }
}

/// How many of a batch's record outcomes left the newer local copy alone
/// (`Ok(false)`).
pub open spec fn skipped_records(outcomes: Seq<(Uuid, Result<bool, String>)>) -> nat
    decreases outcomes.len(),
{
    if outcomes.len() == 0 {
        0
    } else {
        skipped_records(outcomes.drop_last()) + if outcomes.last().1 matches Ok(false) { 1nat } else { 0nat }
    }
}

/// The error lines of a batch's record outcomes, in order.
pub open spec fn record_error_lines(outcomes: Seq<(Uuid, Result<bool, String>)>) -> Seq<Seq<char>>
    decreases outcomes.len(),
{
    if outcomes.len() == 0 {
        Seq::empty()
    } else {
        let rest = record_error_lines(outcomes.drop_last());
        match outcomes.last().1 {
            Err(e) => rest.push(apply_error("record"@, outcomes.last().0, e@)),
            Ok(_) => rest,
        }
    }
}

/// How many of a batch's link or event outcomes wrote the row.
pub open spec fn written_rows(outcomes: Seq<(Uuid, Result<(), String>)>) -> nat
    decreases outcomes.len(),
{
    if outcomes.len() == 0 {
        0
    } else {
        written_rows(outcomes.drop_last()) + if outcomes.last().1 is Ok { 1nat } else { 0nat }
    }
}

/// The error lines of a batch's link or event outcomes, in order, each
/// starting with `what`.
pub open spec fn row_error_lines(what: Seq<char>, outcomes: Seq<(Uuid, Result<(), String>)>) -> Seq<Seq<char>>
    decreases outcomes.len(),
{
    if outcomes.len() == 0 {
        Seq::empty()
    } else {
        let rest = row_error_lines(what, outcomes.drop_last());
        match outcomes.last().1 {
            Err(e) => rest.push(apply_error(what, outcomes.last().0, e@)),
            Ok(_) => rest,
        }
    }
}

/// Every record outcome of a batch is counted once: written, skipped, or an
/// error line.
pub proof fn lemma_record_outcomes_partition(outcomes: Seq<(Uuid, Result<bool, String>)>)
    ensures
        written_records(outcomes) + skipped_records(outcomes) + record_error_lines(outcomes).len() == outcomes.len(),
    decreases outcomes.len(),
{
    if outcomes.len() > 0 {
        lemma_record_outcomes_partition(outcomes.drop_last());
    }
}

/// Every link or event outcome of a batch is counted once: written, or an
/// error line.
pub proof fn lemma_row_outcomes_partition(what: Seq<char>, outcomes: Seq<(Uuid, Result<(), String>)>)
    ensures
        written_rows(outcomes) + row_error_lines(what, outcomes).len() == outcomes.len(),
    decreases outcomes.len(),
{
    if outcomes.len() > 0 {
        lemma_row_outcomes_partition(what, outcomes.drop_last());
    }
}

/// Tallies what writing a fetched batch came to, given each row's outcome in
/// the order the rows were written: records, then links, then events. Each
/// row is counted once, as written, as skipped (a record whose local copy is
/// newer), or as an error line.
pub fn tally_pull(
    latest_updated_at: Option<Timestamp>,
    records: &Vec<(Uuid, Result<bool, String>)>,
    links: &Vec<(Uuid, Result<(), String>)>,
    events: &Vec<(Uuid, Result<(), String>)>,
) -> (r: PullResult)
    requires
        records.len() <= u32::MAX,
        links.len() <= u32::MAX,
        events.len() <= u32::MAX,
    ensures
        r.latest_updated_at == latest_updated_at,
        r.records_pulled == written_records(records@),
        r.links_pulled == written_rows(links@),
        r.events_pulled == written_rows(events@),
        views(r.errors@) == record_error_lines(records@) + row_error_lines("link"@, links@)
            + row_error_lines("event"@, events@),
        r.records_pulled + skipped_records(records@) + record_error_lines(records@).len() == records.len(),
        r.links_pulled + row_error_lines("link"@, links@).len() == links.len(),
        r.events_pulled + row_error_lines("event"@, events@).len() == events.len(),
{
    let mut result = PullResult::starting(latest_updated_at);
    let mut i: usize = 0;
    while i < records.len()
        invariant
            i <= records.len() <= u32::MAX,
            result.latest_updated_at == latest_updated_at,
            result.records_pulled == written_records(records@.take(i as int)),
            result.links_pulled == 0,
            result.events_pulled == 0,
            views(result.errors@) == record_error_lines(records@.take(i as int)),
        decreases records.len() - i,
    {
        proof {
            lemma_record_outcomes_partition(records@.take(i as int));
            assert(records@.take(i as int + 1).drop_last() =~= records@.take(i as int));
        }
        let id = records[i].0;
        let outcome = match &records[i].1 {
            Ok(b) => Ok(*b),
            Err(e) => Err(e.clone()),
        };
        result.count_record(outcome, id);
        i = i + 1;
    }
    proof {
        assert(records@.take(records.len() as int) =~= records@);
    }
    let ghost after_records = views(result.errors@);
    let mut j: usize = 0;
    while j < links.len()
        invariant
            j <= links.len() <= u32::MAX,
            result.latest_updated_at == latest_updated_at,
            result.records_pulled == written_records(records@),
            result.links_pulled == written_rows(links@.take(j as int)),
            result.events_pulled == 0,
            after_records == record_error_lines(records@),
            views(result.errors@) == after_records + row_error_lines("link"@, links@.take(j as int)),
        decreases links.len() - j,
    {
        proof {
            lemma_row_outcomes_partition("link"@, links@.take(j as int));
            assert(links@.take(j as int + 1).drop_last() =~= links@.take(j as int));
        }
        let id = links[j].0;
        let outcome = match &links[j].1 {
            Ok(()) => Ok(()),
            Err(e) => Err(e.clone()),
        };
        result.count_link(outcome, id);
        proof {
            let rest = row_error_lines("link"@, links@.take(j as int));
            if links@[j as int].1 is Err {
                assert((after_records + rest).push(apply_error("link"@, id, links@[j as int].1->Err_0@))
                    =~= after_records + rest.push(apply_error("link"@, id, links@[j as int].1->Err_0@)));
            }
        }
        j = j + 1;
    }
    proof {
        assert(links@.take(links.len() as int) =~= links@);
    }
    let ghost after_links = views(result.errors@);
    let mut k: usize = 0;
    while k < events.len()
        invariant
            k <= events.len() <= u32::MAX,
            result.latest_updated_at == latest_updated_at,
            result.records_pulled == written_records(records@),
            result.links_pulled == written_rows(links@),
            result.events_pulled == written_rows(events@.take(k as int)),
            after_links == record_error_lines(records@) + row_error_lines("link"@, links@),
            views(result.errors@) == after_links + row_error_lines("event"@, events@.take(k as int)),
        decreases events.len() - k,
    {
        proof {
            lemma_row_outcomes_partition("event"@, events@.take(k as int));
            assert(events@.take(k as int + 1).drop_last() =~= events@.take(k as int));
        }
        let id = events[k].0;
        let outcome = match &events[k].1 {
            Ok(()) => Ok(()),
            Err(e) => Err(e.clone()),
        };
        result.count_event(outcome, id);
        proof {
            let rest = row_error_lines("event"@, events@.take(k as int));
            if events@[k as int].1 is Err {
                assert((after_links + rest).push(apply_error("event"@, id, events@[k as int].1->Err_0@))
                    =~= after_links + rest.push(apply_error("event"@, id, events@[k as int].1->Err_0@)));
            }
        }
        k = k + 1;
    }
    proof {
        assert(events@.take(events.len() as int) =~= events@);
        lemma_record_outcomes_partition(records@);
        lemma_row_outcomes_partition("link"@, links@);
        lemma_row_outcomes_partition("event"@, events@);
    }
    result
}

/// The instant the last pull reached, read from its stored RFC 3339 text;
/// none where nothing is stored or the text does not parse.
pub fn last_pull_at(stored: Option<String>) -> (r: Option<Timestamp>)
    ensures
        r == parse_instant(opt_view(stored)),
        r matches Some(t) ==> t.in_range(),
{
    match stored {
        Some(s) => parse_rfc3339(s.as_str()),
        None => None,
    }
}

/// The query for one page of `table` ordered by `cursor_col`: rows of the
/// workspace, ascending, `PAGE_SIZE` at most, after the cursor if there is
/// one.
pub open spec fn spec_page_query(workspace_id: Seq<char>, cursor_col: Seq<char>, cursor: Option<Timestamp>) -> Seq<char> {
    "?select=*&workspace_id=eq."@ + workspace_id + "&order="@ + cursor_col + ".asc&limit=100"@
        + match cursor {
            Some(c) => "&"@ + cursor_col + "=gt."@ + rfc3339_text(c.secs, c.nanos),
            None => Seq::empty(),
        }
}

/// The query for one page (see `spec_page_query`).
pub fn page_query(workspace_id: &str, cursor_col: &str, cursor: Option<Timestamp>) -> (r: String)
    requires
        cursor matches Some(c) ==> c.in_range(),
    ensures
        r@ == spec_page_query(workspace_id@, cursor_col@, cursor),
{
    let mut q = owned("?select=*&workspace_id=eq.");
    q.append(workspace_id);
    q.append("&order=");
    q.append(cursor_col);
    q.append(".asc&limit=100");
    match cursor {
        Some(c) => {
            q.append("&");
            q.append(cursor_col);
            q.append("=gt.");
            let t = to_rfc3339(&c);
            q.append(t.as_str());
        },
        None => {},
    }
    assert(q@ =~= spec_page_query(workspace_id@, cursor_col@, cursor));
    q
}

/// The latest of `latest` and the instants among `times`.
pub open spec fn fold_latest(latest: Option<Timestamp>, times: Seq<Option<Timestamp>>) -> Option<Timestamp>
    decreases times.len(),
{
    if times.len() == 0 {
        latest
    } else {
        let before = fold_latest(latest, times.drop_last());
        match times.last() {
            Some(t) => spec_max_dt(before, Some(t)),
            None => before,
        }
    }
}

/// Where paging through one table stands: the cursor to ask after, and the
/// latest cursor value seen.
#[derive(Debug, Clone, Copy)]
pub struct PageCursor {
    pub cursor: Option<Timestamp>,
    pub latest: Option<Timestamp>,
}

impl PageCursor {
    /// Paging that starts after `since`, having seen nothing.
    pub fn starting(since: Option<Timestamp>) -> (r: PageCursor)
        ensures
            r.cursor == since,
            r.latest is None,
    {
        PageCursor { cursor: since, latest: None }
    }

    /// Takes in one page, given the cursor instant of each row (where it has
    /// one): an empty page ends paging and changes nothing; otherwise the
    /// latest value takes in every row's instant, the cursor moves to the last
    /// row's instant (if it has one), and paging goes on only after a full
    /// page.
    pub fn absorb_page(&mut self, row_times: &Vec<Option<Timestamp>>) -> (more: bool)
        ensures
            row_times@.len() == 0 ==> !more && *final(self) == *old(self),
            row_times@.len() > 0 ==> {
                &&& more == (row_times@.len() >= PAGE_SIZE)
                &&& final(self).latest == fold_latest(old(self).latest, row_times@)
                &&& final(self).cursor == match row_times@.last() {
                    Some(t) => Some(t),
                    None => old(self).cursor,
                }
            },
    {
        let n: usize = row_times.len();
        if n == 0 {
            return false;
        }
        let mut i: usize = 0;
        let ghost start = self.latest;
        assert(row_times@.take(0) =~= Seq::<Option<Timestamp>>::empty());
        while i < n
            invariant
                n == row_times@.len(),
                i <= n,
                self.latest == fold_latest(start, row_times@.take(i as int)),
                self.cursor == old(self).cursor,
            decreases n - i,
        {
            proof {
                assert(row_times@.take(i + 1).drop_last() =~= row_times@.take(i as int));
            }
            match row_times[i] {
                Some(t) => {
                    self.latest = max_dt(self.latest, Some(t));
                },
                None => {},
            }
            i = i + 1;
        }
        assert(row_times@.take(n as int) =~= row_times@);
        match row_times[n - 1] {
            Some(t) => {
                self.cursor = Some(t);
            },
            None => {},
        }
        n >= PAGE_SIZE
    }
}

/// The latest cursor value only grows as pages are taken in.
pub proof fn lemma_latest_never_decreases(latest: Option<Timestamp>, times: Seq<Option<Timestamp>>)
    ensures
        latest matches Some(l) ==> (fold_latest(latest, times) matches Some(f) && !f.earlier(l)),
        forall|i: int| 0 <= i < times.len() && times[i] is Some ==>
            (fold_latest(latest, times) matches Some(f) && !f.earlier(times[i]->0)),
    decreases times.len(),
{
    if times.len() > 0 {
        lemma_latest_never_decreases(latest, times.drop_last());
        assert forall|i: int| 0 <= i < times.len() && times[i] is Some implies
            (fold_latest(latest, times) matches Some(f) && !f.earlier(times[i]->0)) by {
            if i < times.len() - 1 {
                assert(times[i] == times.drop_last()[i]);
            }
        }
    }
}

} // verus!

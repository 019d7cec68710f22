//! Pushing one outbox item to the server, as a sequence of requests: check
//! the server's revision of the record, upsert the record, post the event,
//! upsert the links, and acknowledge the outbox item. Each step says which
//! request to send next, given the reply to the last one; the caller sends
//! them.

use crate::drain::PushTarget;
use crate::ids::{is_uuid, uuid_parse, uuid_text, Uuid};
use crate::json::{as_i64, embed_json, lookup, members, JsonValue, JsonView, Members};
use crate::models::{opt_in_range, CoreEvent, CoreLink, CoreRecord, SyncOutboxItem};
use crate::sync_error::SyncError;
use crate::text::{concat, contains_str, opt_view, owned, spec_contains};
use crate::time::{now, rfc3339_text, to_rfc3339, Timestamp};
use vstd::prelude::*;

verus! {

/// The server's answer to one push.
#[derive(Debug, Clone)]
pub struct PushResult {
    pub accepted: bool,
    pub error: Option<String>,
}

/// A conflict reply: the HTTP status 409 or Postgres' unique violation
/// 23505 in the error's message.
pub open spec fn spec_is_unique_violation(message: Seq<char>) -> bool {
    spec_contains(message, "409"@) || spec_contains(message, "23505"@)
}

/// Whether an error message reports a row that is already there.
pub fn is_unique_violation(message: &str) -> (r: bool)
    ensures
        r == spec_is_unique_violation(message@),
{
    contains_str(message, "409") || contains_str(message, "23505")
}

/// The JSON string of a text.
pub open spec fn js(s: Seq<char>) -> JsonView {
    JsonView::Str(s)
}

/// The JSON string of an instant's RFC 3339 text.
pub open spec fn jt(t: Timestamp) -> JsonView {
    JsonView::Str(rfc3339_text(t.secs, t.nanos))
}

/// The JSON value of an optional text: a string, or null.
pub open spec fn jopt(s: Option<Seq<char>>) -> JsonView {
    match s {
        Some(v) => JsonView::Str(v),
        None => JsonView::Null,
    }
}

/// The JSON value a payload text is sent as: the parsed value (an object
/// is carried whole, printing as the parsed object does), or an empty
/// object where the text is not JSON.
pub open spec fn sent_payload(v: JsonView, text: Seq<char>) -> bool {
    match crate::json::json_parse(text) {
        Some(crate::json::DocView::Value(x)) => v == x,
        Some(crate::json::DocView::Object(m)) => v is Other
            && crate::json::json_print(crate::json::DocView::Value(v)) == crate::json::json_print(crate::json::DocView::Object(m)),
        None => v is Other && crate::json::json_print(crate::json::DocView::Value(v)) == "{}"@,
    }
}

/// The members of the server row of a record, pushed by `t` (the payload
/// member is checked by `sent_payload`).
pub open spec fn record_row_members(rec: CoreRecord, t: PushTarget, payload: JsonView) -> Members {
    seq![
        ("id"@, js(uuid_text(rec.id.value))),
        ("user_id"@, js(t.user_id@)),
        ("workspace_id"@, js(t.workspace_id@)),
        ("kind"@, js(rec.kind.wire())),
        ("title"@, js(rec.title@)),
        ("summary"@, jopt(opt_view(rec.summary))),
        ("status"@, js(rec.status@)),
        ("payload_json"@, payload),
        ("source_record_id"@, jopt(match rec.source_record_id { Some(u) => Some(uuid_text(u.value)), None => None })),
        ("sort_at"@, jt(rec.sort_at)),
        ("created_at"@, jt(rec.created_at)),
        ("updated_at"@, jt(rec.updated_at)),
        ("deleted_at"@, jopt(match rec.deleted_at { Some(d) => Some(rfc3339_text(d.secs, d.nanos)), None => None })),
        ("revision"@, JsonView::Int(rec.revision as i64)),
        ("schema_version"@, JsonView::Int(rec.schema_version as i64)),
        ("origin_device_id"@, js(t.device_id@)),
    ]
}

/// The members of the server row of an event, pushed by `t`; an event with
/// no actor is attributed to the user.
pub open spec fn event_row_members(e: CoreEvent, t: PushTarget, payload: JsonView) -> Members {
    seq![
        ("id"@, js(uuid_text(e.id.value))),
        ("user_id"@, js(t.user_id@)),
        ("workspace_id"@, js(t.workspace_id@)),
        ("record_id"@, js(uuid_text(e.record_id.value))),
        ("kind"@, js(e.kind.wire())),
        ("payload_json"@, payload),
        ("occurred_at"@, jt(e.occurred_at)),
        ("actor_type"@, js(e.actor_type@)),
        ("actor_id"@, js(match opt_view(e.actor_id) { Some(a) => a, None => t.user_id@ })),
        ("origin_device_id"@, js(t.device_id@)),
        ("base_revision"@, JsonView::Int(e.base_revision as i64)),
        ("created_at"@, jt(e.created_at)),
    ]
}

/// The pushed event row names the event by its own id and the record it is
/// about by the event's `record_id`; so when the event belongs to the record
/// pushed with it, the row's `record_id` is the text of that record row's
/// `id`.
pub proof fn lemma_event_row_names_its_record(e: CoreEvent, t: PushTarget, p: JsonView, rec: CoreRecord, q: JsonView)
    ensures
        lookup(event_row_members(e, t, p), "id"@) == Some(JsonView::Str(uuid_text(e.id.value))),
        lookup(event_row_members(e, t, p), "record_id"@) == Some(JsonView::Str(uuid_text(e.record_id.value))),
        lookup(record_row_members(rec, t, q), "id"@) == Some(JsonView::Str(uuid_text(rec.id.value))),
        e.record_id == rec.id ==> lookup(event_row_members(e, t, p), "record_id"@)
            == lookup(record_row_members(rec, t, q), "id"@),
{
    reveal_strlit("id");
    reveal_strlit("user_id");
    reveal_strlit("workspace_id");
    reveal_strlit("record_id");
    assert("id"@.len() == 2 && "user_id"@.len() == 7 && "workspace_id"@.len() == 12 && "record_id"@.len() == 9);
    let m = event_row_members(e, t, p);
    assert(m.drop_first().drop_first().drop_first()[0].0 == "record_id"@);
    reveal_with_fuel(lookup, 5);
}

/// The members of the server row of a link, pushed by `t`.
pub open spec fn link_row_members(l: CoreLink, t: PushTarget, metadata: JsonView) -> Members {
    seq![
        ("id"@, js(uuid_text(l.id.value))),
        ("user_id"@, js(t.user_id@)),
        ("workspace_id"@, js(t.workspace_id@)),
        ("source_record_id"@, js(uuid_text(l.source_record_id.value))),
        ("target_record_id"@, js(uuid_text(l.target_record_id.value))),
        ("kind"@, js(l.kind.wire())),
        ("metadata_json"@, metadata),
        ("created_at"@, jt(l.created_at)),
    ]
}

/// The members of the acknowledgement of an outbox item, sent at `at`.
pub open spec fn ack_members(t: PushTarget, event_id: Uuid, o: SyncOutboxItem, at: Timestamp) -> Members {
    seq![
        ("user_id"@, js(t.user_id@)),
        ("workspace_id"@, js(t.workspace_id@)),
        ("event_id"@, js(uuid_text(event_id.value))),
        ("status"@, js("synced"@)),
        ("attempts"@, JsonView::Int(o.attempts as i64)),
        ("queued_at"@, jt(o.queued_at)),
        ("last_attempt_at"@, jt(at)),
    ]
}

fn jstr(s: String) -> (r: JsonValue)
    ensures
        r@ == JsonView::Str(s@),
{
    JsonValue::Str(s)
}

fn jtime(t: &Timestamp) -> (r: JsonValue)
    requires
        t.in_range(),
    ensures
        r@ == jt(*t),
{
    JsonValue::Str(to_rfc3339(t))
}

fn field(key: &str, v: JsonValue) -> (r: (String, JsonValue))
    ensures
        r.0@ == key@,
        r.1 == v,
{
    (owned(key), v)
}

/// The server row of a record, pushed by `t`.
pub fn record_row(rec: &CoreRecord, t: &PushTarget) -> (r: Vec<(String, JsonValue)>)
    requires
        rec.times_in_range(),
    ensures
        exists|p: JsonView| sent_payload(p, rec.payload_json@) && members(r@) == record_row_members(*rec, *t, p),
{
    let payload = embed_json(rec.payload_json.as_str());
    let summary = match &rec.summary {
        Some(s) => JsonValue::Str(s.clone()),
        None => JsonValue::Null,
    };
    let source = match &rec.source_record_id {
        Some(u) => JsonValue::Str(u.to_text()),
        None => JsonValue::Null,
    };
    let deleted = match &rec.deleted_at {
        Some(d) => jtime(d),
        None => JsonValue::Null,
    };
    let ghost p = payload@;
    let r = vec![
        field("id", jstr(rec.id.to_text())),
        field("user_id", jstr(t.user_id.clone())),
        field("workspace_id", jstr(t.workspace_id.clone())),
        field("kind", jstr(rec.kind.to_wire_string())),
        field("title", jstr(rec.title.clone())),
        field("summary", summary),
        field("status", jstr(rec.status.clone())),
        field("payload_json", payload),
        field("source_record_id", source),
        field("sort_at", jtime(&rec.sort_at)),
        field("created_at", jtime(&rec.created_at)),
        field("updated_at", jtime(&rec.updated_at)),
        field("deleted_at", deleted),
        field("revision", JsonValue::Int(rec.revision as i64)),
        field("schema_version", JsonValue::Int(rec.schema_version as i64)),
        field("origin_device_id", jstr(t.device_id.clone())),
    ];
    assert(members(r@) =~= record_row_members(*rec, *t, p));
    r
}

/// The server row of an event, pushed by `t`.
pub fn event_row(e: &CoreEvent, t: &PushTarget) -> (r: Vec<(String, JsonValue)>)
    requires
        e.times_in_range(),
    ensures
        exists|p: JsonView| sent_payload(p, e.payload_json@) && members(r@) == event_row_members(*e, *t, p),
{
    let payload = embed_json(e.payload_json.as_str());
    let actor = match &e.actor_id {
        Some(a) => a.clone(),
        None => t.user_id.clone(),
    };
    let ghost p = payload@;
    let r = vec![
        field("id", jstr(e.id.to_text())),
        field("user_id", jstr(t.user_id.clone())),
        field("workspace_id", jstr(t.workspace_id.clone())),
        field("record_id", jstr(e.record_id.to_text())),
        field("kind", jstr(e.kind.to_wire_string())),
        field("payload_json", payload),
        field("occurred_at", jtime(&e.occurred_at)),
        field("actor_type", jstr(e.actor_type.clone())),
        field("actor_id", jstr(actor)),
        field("origin_device_id", jstr(t.device_id.clone())),
        field("base_revision", JsonValue::Int(e.base_revision as i64)),
        field("created_at", jtime(&e.created_at)),
    ];
    assert(members(r@) =~= event_row_members(*e, *t, p));
    r
}

/// The server row of a link, pushed by `t`.
pub fn link_row(l: &CoreLink, t: &PushTarget) -> (r: Vec<(String, JsonValue)>)
    requires
        l.created_at.in_range(),
    ensures
        exists|p: JsonView| sent_payload(p, l.metadata_json@) && members(r@) == link_row_members(*l, *t, p),
{
    let metadata = embed_json(l.metadata_json.as_str());
    let ghost p = metadata@;
    let r = vec![
        field("id", jstr(l.id.to_text())),
        field("user_id", jstr(t.user_id.clone())),
        field("workspace_id", jstr(t.workspace_id.clone())),
        field("source_record_id", jstr(l.source_record_id.to_text())),
        field("target_record_id", jstr(l.target_record_id.to_text())),
        field("kind", jstr(l.kind.to_wire_string())),
        field("metadata_json", metadata),
        field("created_at", jtime(&l.created_at)),
    ];
    assert(members(r@) =~= link_row_members(*l, *t, p));
    r
}

/// The acknowledgement of an outbox item, sent now.
pub fn outbox_ack_row(t: &PushTarget, event_id: Uuid, o: &SyncOutboxItem) -> (r: Vec<(String, JsonValue)>)
    requires
        o.queued_at.in_range(),
    ensures
        exists|at: Timestamp| at.in_range() && members(r@) == ack_members(*t, event_id, *o, at),
{
    let at = now();
    let r = vec![
        field("user_id", jstr(t.user_id.clone())),
        field("workspace_id", jstr(t.workspace_id.clone())),
        field("event_id", jstr(event_id.to_text())),
        field("status", jstr(owned("synced"))),
        field("attempts", JsonValue::Int(o.attempts as i64)),
        field("queued_at", jtime(&o.queued_at)),
        field("last_attempt_at", jtime(&at)),
    ];
    assert(members(r@) =~= ack_members(*t, event_id, *o, at));
    r
}

/// The query for the server's revision of a record.
pub open spec fn spec_revision_query(id: Uuid) -> Seq<char> {
    "?select=revision&id=eq."@ + uuid_text(id.value)
}

/// The server's revision, read from the first row of the reply (0 where it
/// has none); the record is stale when the server's is newer.
pub open spec fn spec_is_stale(rows: Seq<Members>, local_revision: i32) -> bool {
    rows.len() > 0 && (match as_i64(lookup(rows[0], "revision"@)) {
        Some(v) => v,
        None => 0,
    }) as i32 > local_revision
}

/// Whether the server holds a newer revision of the record.
pub fn is_stale_revision(rows: &Vec<Vec<(String, JsonValue)>>, local_revision: i32) -> (r: bool)
    ensures
        r == spec_is_stale(rows@.map_values(|m: Vec<(String, JsonValue)>| members(m@)), local_revision),
{
    let ghost rv = rows@.map_values(|m: Vec<(String, JsonValue)>| members(m@));
    if rows.len() == 0 {
        return false;
    }
    assert(rv[0] == members(rows@[0]@));
    let rev = match crate::json::get_i64(&rows[0], "revision") {
        Some(v) => v,
        None => 0,
    };
    (rev as i32) > local_revision
}

/// A link is pushed only when its id and both ends print as UUIDs.
pub open spec fn link_pushable(l: CoreLink) -> bool {
    uuid_parse(uuid_text(l.id.value)) is Some
        && uuid_parse(uuid_text(l.source_record_id.value)) is Some
        && uuid_parse(uuid_text(l.target_record_id.value)) is Some
}

/// The first link at or after `from` that is pushed, else the number of
/// links.
pub open spec fn next_link(links: Seq<CoreLink>, from: int) -> int
    decreases links.len() - from,
{
    if from >= links.len() {
        links.len() as int
    } else if link_pushable(links[from]) {
        from
    } else {
        next_link(links, from + 1)
    }
}

/// A request to the server's REST interface.
#[derive(Debug, Clone)]
pub enum PushRequest {
    /// Read rows of a table with a query.
    Get { table: String, query: String },
    /// Insert or merge a row.
    Upsert { table: String, body: Vec<(String, JsonValue)> },
    /// Insert a row.
    Post { table: String, body: Vec<(String, JsonValue)> },
}

/// The reply to a request.
#[derive(Debug, Clone)]
pub enum PushReply {
    /// The rows a read returned (each row's members; none for a reply that is
    /// not an array).
    Rows(Vec<Vec<(String, JsonValue)>>),
    /// A write went through.
    Sent,
    /// The request failed; the client's message.
    Failed(String),
}

/// What the caller does next.
#[derive(Debug)]
pub enum PushStep {
    Send(PushRequest),
    Finished(Result<PushResult, SyncError>),
}

/// Where a push stands: which reply it waits for.
#[derive(Debug, Clone, Copy, PartialEq, Eq, Structural)]
pub enum PushStage {
    CheckRevision,
    SendRecord,
    SendEvent,
    SendLink(usize),
    SendAck,
    Done,
}

/// One push of an outbox item: who pushes, what, and where it stands.
#[derive(Debug, Clone)]
pub struct PushFlow {
    pub target: PushTarget,
    pub event: CoreEvent,
    pub record: CoreRecord,
    pub links: Vec<CoreLink>,
    pub outbox: SyncOutboxItem,
    pub stage: PushStage,
}

/// A finished push that the server refused with `message`.
pub open spec fn refused(step: PushStep, message: Seq<char>) -> bool {
    step matches PushStep::Finished(Ok(r)) && !r.accepted && opt_view(r.error) == Some(message)
}

/// A finished push that failed with the client's error `message`.
pub open spec fn failed_with(step: PushStep, message: Seq<char>) -> bool {
    step matches PushStep::Finished(Err(SyncError::Auth(m))) && m@ == message
}

/// A request to upsert `body` into `table`.
pub open spec fn is_upsert(step: PushStep, table: Seq<char>, body: Members) -> bool {
    step matches PushStep::Send(PushRequest::Upsert { table: t, body: b }) && t@ == table && members(b@) == body
}

/// A request to post `body` into `table`.
pub open spec fn is_post(step: PushStep, table: Seq<char>, body: Members) -> bool {
    step matches PushStep::Send(PushRequest::Post { table: t, body: b }) && t@ == table && members(b@) == body
}

impl PushFlow {
    /// Every instant the push prints lies in `chrono`'s range.
    pub open spec fn printable(&self) -> bool {
        &&& self.record.times_in_range()
        &&& self.event.times_in_range()
        &&& forall|i: int| 0 <= i < self.links@.len() ==> (#[trigger] self.links@[i]).created_at.in_range()
        &&& self.outbox.queued_at.in_range()
    }

    /// The step after the links from `from` on: upsert the next pushable
    /// link, or acknowledge the outbox item when none is left.
    pub open spec fn after_links(&self, from: int, step: PushStep, stage: PushStage) -> bool {
        let k = next_link(self.links@, from);
        if k < self.links@.len() {
            stage == PushStage::SendLink(k as usize)
                && exists|p: JsonView| is_upsert(step, "core_links"@, link_row_members(self.links@[k], self.target, p))
        } else {
            stage == PushStage::SendAck
                && exists|at: Timestamp| at.in_range() && is_post(step, "client_outbox"@,
                    ack_members(self.target, self.event.id, self.outbox, at))
        }
    }

    /// Starts a push: an item whose record or event id does not print as a
    /// UUID is refused at once (`Invalid record or event id`); otherwise the
    /// first request reads the server's revision of the record.
    pub fn begin(target: PushTarget, event: CoreEvent, record: CoreRecord, links: Vec<CoreLink>, outbox: SyncOutboxItem) -> (r: (PushFlow, PushStep))
        ensures
            r.0.target == target,
            r.0.event == event,
            r.0.record == record,
            r.0.links@ == links@,
            r.0.outbox == outbox,
            if uuid_parse(uuid_text(record.id.value)) is Some && uuid_parse(uuid_text(event.id.value)) is Some {
                r.0.stage == PushStage::CheckRevision
                    && (r.1 matches PushStep::Send(PushRequest::Get { table, query })
                    && table@ == "core_records"@ && query@ == spec_revision_query(record.id))
            } else {
                r.0.stage == PushStage::Done && refused(r.1, "Invalid record or event id"@)
            },
    {
        let rid = record.id.to_text();
        let eid = event.id.to_text();
        if !is_uuid(rid.as_str()) || !is_uuid(eid.as_str()) {
            let flow = PushFlow { target, event, record, links, outbox, stage: PushStage::Done };
            return (flow, PushStep::Finished(Ok(PushResult { accepted: false, error: Some(owned("Invalid record or event id")) })));
        }
        let query = concat("?select=revision&id=eq.", rid.as_str());
        let flow = PushFlow { target, event, record, links, outbox, stage: PushStage::CheckRevision };
        (flow, PushStep::Send(PushRequest::Get { table: owned("core_records"), query }))
    }

    /// The next link request, or the acknowledgement, from link `from` on.
    fn links_from(&mut self, from: usize) -> (r: PushStep)
        requires
            old(self).printable(),
            from <= old(self).links@.len(),
        ensures
            final(self).target == old(self).target,
            final(self).event == old(self).event,
            final(self).record == old(self).record,
            final(self).links@ == old(self).links@,
            final(self).outbox == old(self).outbox,
            final(self).after_links(from as int, r, final(self).stage),
    {
        let mut i: usize = from;
        while i < self.links.len()
            invariant
                from <= i <= self.links@.len(),
                next_link(self.links@, from as int) == next_link(self.links@, i as int),
                self.printable(),
                self.target == old(self).target,
                self.event == old(self).event,
                self.record == old(self).record,
                self.links@ == old(self).links@,
                self.outbox == old(self).outbox,
            decreases self.links@.len() - i,
        {
            let l = &self.links[i];
            let a = l.id.to_text();
            let b = l.source_record_id.to_text();
            let c = l.target_record_id.to_text();
            if is_uuid(a.as_str()) && is_uuid(b.as_str()) && is_uuid(c.as_str()) {
                assert(link_pushable(self.links@[i as int]));
                let body = link_row(&self.links[i], &self.target);
                self.stage = PushStage::SendLink(i);
                let step = PushStep::Send(PushRequest::Upsert { table: owned("core_links"), body });
                proof {
                    assert(next_link(self.links@, i as int) == i);
                    let p = choose|p: JsonView| sent_payload(p, self.links@[i as int].metadata_json@)
                        && members(body@) == link_row_members(self.links@[i as int], self.target, p);
                    assert(is_upsert(step, "core_links"@, link_row_members(self.links@[i as int], self.target, p)));
                }
                return step;
            }
            i = i + 1;
        }
        let body = outbox_ack_row(&self.target, self.event.id, &self.outbox);
        self.stage = PushStage::SendAck;
        PushStep::Send(PushRequest::Post { table: owned("client_outbox"), body })
    }

    /// Takes the reply to the last request and says what to do next:
    /// after the revision check, a newer server revision refuses the push
    /// (`stale_revision`), else the record is upserted; then the event is
    /// posted, each pushable link upserted, and the outbox item acknowledged,
    /// after which the push is accepted. A failed write ends the push with
    /// the client's error, except that a failed event, link or
    /// acknowledgement that reports a row already there is passed over. A
    /// failed read ends the push with the client's error.
    pub fn advance(&mut self, reply: PushReply) -> (r: PushStep)
        requires
            old(self).printable(),
            old(self).stage != PushStage::Done,
            old(self).stage matches PushStage::SendLink(k) ==> k < old(self).links@.len(),
        ensures
            final(self).target == old(self).target,
            final(self).event == old(self).event,
            final(self).record == old(self).record,
            final(self).links@ == old(self).links@,
            final(self).outbox == old(self).outbox,
            final(self).printable(),
            match (old(self).stage, reply) {
                (_, PushReply::Failed(m)) if old(self).stage == PushStage::CheckRevision
                    || old(self).stage == PushStage::SendRecord || !spec_is_unique_violation(m@) =>
                    final(self).stage == PushStage::Done && failed_with(r, m@),
                (PushStage::CheckRevision, PushReply::Rows(rows)) =>
                    if spec_is_stale(rows@.map_values(|m: Vec<(String, JsonValue)>| members(m@)), old(self).record.revision) {
                        final(self).stage == PushStage::Done && refused(r, "stale_revision"@)
                    } else {
                        final(self).stage == PushStage::SendRecord
                            && exists|p: JsonView| is_upsert(r, "core_records"@, record_row_members(old(self).record, old(self).target, p))
                    },
                (PushStage::CheckRevision, _) =>
                    final(self).stage == PushStage::SendRecord
                        && exists|p: JsonView| is_upsert(r, "core_records"@, record_row_members(old(self).record, old(self).target, p)),
                (PushStage::SendRecord, _) =>
                    final(self).stage == PushStage::SendEvent
                        && exists|p: JsonView| is_post(r, "core_events"@, event_row_members(old(self).event, old(self).target, p)),
                (PushStage::SendEvent, _) => old(self).after_links(0, r, final(self).stage),
                (PushStage::SendLink(k), _) => old(self).after_links(k + 1, r, final(self).stage),
                (PushStage::SendAck, _) => final(self).stage == PushStage::Done
                    && (r matches PushStep::Finished(Ok(res)) && res.accepted && res.error is None),
                (PushStage::Done, _) => false,
            },
    {
        if let PushReply::Failed(m) = &reply {
            let fatal = match self.stage {
                PushStage::CheckRevision | PushStage::SendRecord => true,
                _ => !is_unique_violation(m.as_str()),
            };
            if fatal {
                self.stage = PushStage::Done;
                return PushStep::Finished(Err(SyncError::Auth(m.clone())));
            }
        }
        match self.stage {
            PushStage::CheckRevision => {
                let stale = match &reply {
                    PushReply::Rows(rows) => is_stale_revision(rows, self.record.revision),
                    _ => false,
                };
                if stale {
                    self.stage = PushStage::Done;
                    return PushStep::Finished(Ok(PushResult { accepted: false, error: Some(owned("stale_revision")) }));
                }
                let body = record_row(&self.record, &self.target);
                self.stage = PushStage::SendRecord;
                PushStep::Send(PushRequest::Upsert { table: owned("core_records"), body })
            },
            PushStage::SendRecord => {
                let body = event_row(&self.event, &self.target);
                self.stage = PushStage::SendEvent;
                PushStep::Send(PushRequest::Post { table: owned("core_events"), body })
            },
            PushStage::SendEvent => self.links_from(0),
            PushStage::SendLink(k) => {
                let n: usize = self.links.len();
                assert(k < n);
                self.links_from(k + 1)
            },
            PushStage::SendAck => {
                self.stage = PushStage::Done;
                PushStep::Finished(Ok(PushResult { accepted: true, error: None }))
            },
            PushStage::Done => {
                PushStep::Finished(Ok(PushResult { accepted: true, error: None }))
            },
        }
    }
}

} // verus!

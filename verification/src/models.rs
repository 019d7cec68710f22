//! CORE rows: records, change events, links between records, and items of the
//! sync outbox.

use crate::ids::Uuid;
use crate::json::{parse_json, print_json, json_parse, json_print, DocView, JsonDoc};
use crate::kinds::{CoreEventKind, CoreLinkKind, CoreRecordKind, SyncOutboxStatus};
use crate::text::owned;
use crate::time::{now, Timestamp};
use vstd::prelude::*;

verus! {

/// A CORE record: one row of `core_records`.
#[derive(Debug, Clone)]
pub struct CoreRecord {
    pub id: Uuid,
    pub kind: CoreRecordKind,
    pub title: String,
    pub summary: Option<String>,
    pub status: String,
    pub payload_json: String,
    pub source_record_id: Option<Uuid>,
    pub sort_at: Timestamp,
    pub created_at: Timestamp,
    pub updated_at: Timestamp,
    pub deleted_at: Option<Timestamp>,
    pub revision: i32,
    pub schema_version: i32,
    pub origin_device_id: String,
    pub external_id: Option<String>,
}

/// Whether an optional instant is absent or in `chrono`'s range.
pub open spec fn opt_in_range(t: Option<Timestamp>) -> bool {
    match t {
        Some(t) => t.in_range(),
        None => true,
    }
}

/// Whether an optional instant is absent or in `chrono`'s range.
pub fn opt_is_in_range(t: &Option<Timestamp>) -> (r: bool)
    ensures
        r == opt_in_range(*t),
{
    match t {
        Some(x) => x.is_in_range(),
        None => true,
    }
}

impl CoreRecord {
    /// Every instant of the record lies in `chrono`'s range, so it can be
    /// printed as RFC 3339 text.
    pub open spec fn times_in_range(&self) -> bool {
        &&& self.sort_at.in_range()
        &&& self.created_at.in_range()
        &&& self.updated_at.in_range()
        &&& opt_in_range(self.deleted_at)
    }

    /// Whether every instant of the record lies in `chrono`'s range.
    pub fn times_are_in_range(&self) -> (r: bool)
        ensures
            r == self.times_in_range(),
    {
        self.sort_at.is_in_range() && self.created_at.is_in_range() && self.updated_at.is_in_range()
            && opt_is_in_range(&self.deleted_at)
    }

    /// A new active record of `kind` titled `title`, with id `id`, made at
    /// `at`: status `active`, payload `{}`, sorted, created and updated at
    /// `at`, revision 1, schema version 1, origin `local-device`.
    pub fn new_at(id: Uuid, kind: CoreRecordKind, title: String, at: Timestamp) -> (r: CoreRecord)
        ensures
            r.id == id,
            r.kind == kind,
            r.title@ == title@,
            r.summary is None,
            r.status@ == "active"@,
            r.payload_json@ == "{}"@,
            json_parse(r.payload_json@) matches Some(DocView::Object(m)) && m.len() == 0,
            r.source_record_id is None,
            r.sort_at == at,
            r.created_at == at,
            r.updated_at == at,
            r.deleted_at is None,
            r.revision == 1,
            r.schema_version == 1,
            r.origin_device_id@ == "local-device"@,
            r.external_id is None,
    {
        let empty: Vec<(String, crate::json::JsonValue)> = Vec::new();
        let payload_json = crate::json::print_object(empty);
        proof {
            let m = json_parse(payload_json@)->0->Object_0;
            assert(crate::json::members(empty@) =~= Seq::<(Seq<char>, crate::json::JsonView)>::empty());
            if m.len() > 0 {
                assert(crate::json::has_key(m, m[0].0));
            }
        }
        CoreRecord {
            id,
            kind,
            title,
            summary: None,
            status: owned("active"),
            payload_json,
            source_record_id: None,
            sort_at: at,
            created_at: at,
            updated_at: at,
            deleted_at: None,
            revision: 1,
            schema_version: 1,
            origin_device_id: owned("local-device"),
            external_id: None,
        }
    }

    /// A new active record with a random id, made now (see `new_at`).
    pub fn new(kind: CoreRecordKind, title: String) -> (r: CoreRecord)
        ensures
            r.kind == kind,
            r.title@ == title@,
            r.summary is None,
            r.status@ == "active"@,
            r.payload_json@ == "{}"@,
            json_parse(r.payload_json@) matches Some(DocView::Object(m)) && m.len() == 0,
            r.source_record_id is None,
            r.sort_at == r.created_at,
            r.updated_at == r.created_at,
            r.created_at.in_range(),
            r.deleted_at is None,
            r.revision == 1,
            r.schema_version == 1,
            r.origin_device_id@ == "local-device"@,
            r.external_id is None,
    {
        Self::new_at(Uuid::new_v4(), kind, title, now())
    }

    /// The payload, parsed; `None` where `payload_json` is not JSON.
    pub fn payload(&self) -> (r: Option<JsonDoc>)
        ensures
            match r {
                Some(d) => json_parse(self.payload_json@) == Some(d@),
                None => json_parse(self.payload_json@) is None,
            },
            r matches Some(JsonDoc::Object(f)) ==> crate::json::member_keys(crate::json::members(f@)).no_duplicates()
                && crate::json::all_shallow(crate::json::members(f@)),
    {
        parse_json(self.payload_json.as_str())
    }

    /// This record with its payload replaced by the printed `payload`.
    pub fn with_payload(self, payload: JsonDoc) -> (r: CoreRecord)
        ensures
            r == (CoreRecord { payload_json: r.payload_json, ..self }),
            r.payload_json@ == json_print(payload@),
            crate::json::prints_back(payload@, r.payload_json@),
    {
        let mut r = self;
        r.payload_json = print_json(&payload);
        r
    }
}

/// A change event: one row of `core_events`.
#[derive(Debug, Clone)]
pub struct CoreEvent {
    pub id: Uuid,
    pub record_id: Uuid,
    pub kind: CoreEventKind,
    pub payload_json: String,
    pub occurred_at: Timestamp,
    pub actor_type: String,
    pub actor_id: Option<String>,
    pub origin_device_id: String,
    pub base_revision: i32,
    pub created_at: Timestamp,
}

impl CoreEvent {
    /// Every instant of the event lies in `chrono`'s range.
    pub open spec fn times_in_range(&self) -> bool {
        self.occurred_at.in_range() && self.created_at.in_range()
    }

    /// Whether both instants of the event lie in `chrono`'s range.
    pub fn times_are_in_range(&self) -> (r: bool)
        ensures
            r == self.times_in_range(),
    {
        self.occurred_at.is_in_range() && self.created_at.is_in_range()
    }

    /// A new event of `kind` on `record_id`, with id `id`, at `at`: payload
    /// `{}`, actor `system`, origin `local-device`, base revision 0.
    pub fn new_at(id: Uuid, record_id: Uuid, kind: CoreEventKind, at: Timestamp) -> (r: CoreEvent)
        ensures
            r.id == id,
            r.record_id == record_id,
            r.kind == kind,
            r.payload_json@ == "{}"@,
            r.occurred_at == at,
            r.actor_type@ == "system"@,
            r.actor_id is None,
            r.origin_device_id@ == "local-device"@,
            r.base_revision == 0,
            r.created_at == at,
    {
        CoreEvent {
            id,
            record_id,
            kind,
            payload_json: owned("{}"),
            occurred_at: at,
            actor_type: owned("system"),
            actor_id: None,
            origin_device_id: owned("local-device"),
            base_revision: 0,
            created_at: at,
        }
    }

    /// A new event with a random id, made now (see `new_at`).
    pub fn new(record_id: Uuid, kind: CoreEventKind) -> (r: CoreEvent)
        ensures
            r.record_id == record_id,
            r.kind == kind,
            r.payload_json@ == "{}"@,
            r.occurred_at == r.created_at,
            r.created_at.in_range(),
            r.actor_type@ == "system"@,
            r.actor_id is None,
            r.origin_device_id@ == "local-device"@,
            r.base_revision == 0,
    {
        Self::new_at(Uuid::new_v4(), record_id, kind, now())
    }

    /// The payload, parsed; `None` where `payload_json` is not JSON.
    pub fn payload(&self) -> (r: Option<JsonDoc>)
        ensures
            match r {
                Some(d) => json_parse(self.payload_json@) == Some(d@),
                None => json_parse(self.payload_json@) is None,
            },
    {
        parse_json(self.payload_json.as_str())
    }
}

/// A directed link between two records: one row of `core_links`.
#[derive(Debug, Clone)]
pub struct CoreLink {
    pub id: Uuid,
    pub source_record_id: Uuid,
    pub target_record_id: Uuid,
    pub kind: CoreLinkKind,
    pub metadata_json: String,
    pub created_at: Timestamp,
}

impl CoreLink {
    /// A new link of `kind` from `source_record_id` to `target_record_id`,
    /// with id `id`, made at `at`, with metadata `{}`.
    pub fn new_at(id: Uuid, source_record_id: Uuid, target_record_id: Uuid, kind: CoreLinkKind, at: Timestamp) -> (r: CoreLink)
        ensures
            r.id == id,
            r.source_record_id == source_record_id,
            r.target_record_id == target_record_id,
            r.kind == kind,
            r.metadata_json@ == "{}"@,
            r.created_at == at,
    {
        CoreLink { id, source_record_id, target_record_id, kind, metadata_json: owned("{}"), created_at: at }
    }

    /// A new link with a random id, made now (see `new_at`).
    pub fn new(source_record_id: Uuid, target_record_id: Uuid, kind: CoreLinkKind) -> (r: CoreLink)
        ensures
            r.source_record_id == source_record_id,
            r.target_record_id == target_record_id,
            r.kind == kind,
            r.metadata_json@ == "{}"@,
            r.created_at.in_range(),
    {
        Self::new_at(Uuid::new_v4(), source_record_id, target_record_id, kind, now())
    }
}

/// An item of the sync outbox: one row of `sync_outbox`.
#[derive(Debug, Clone)]
pub struct SyncOutboxItem {
    pub id: Uuid,
    pub event_id: Uuid,
    pub status: SyncOutboxStatus,
    pub attempts: i32,
    pub last_error: Option<String>,
    pub queued_at: Timestamp,
    pub last_attempt_at: Option<Timestamp>,
    pub processing_started_at: Option<Timestamp>,
}

impl SyncOutboxItem {
    /// Every instant of the item lies in `chrono`'s range, so it can be
    /// printed as RFC 3339 text.
    pub open spec fn times_in_range(&self) -> bool {
        &&& self.queued_at.in_range()
        &&& opt_in_range(self.last_attempt_at)
        &&& opt_in_range(self.processing_started_at)
    }

    /// Whether every instant of the item lies in `chrono`'s range.
    pub fn times_are_in_range(&self) -> (r: bool)
        ensures
            r == self.times_in_range(),
    {
        self.queued_at.is_in_range() && opt_is_in_range(&self.last_attempt_at)
            && opt_is_in_range(&self.processing_started_at)
    }

    /// A new pending item for `event_id`, with id `id`, queued at `at`, never
    /// attempted.
    pub fn new_at(id: Uuid, event_id: Uuid, at: Timestamp) -> (r: SyncOutboxItem)
        ensures
            r.id == id,
            r.event_id == event_id,
            r.status == SyncOutboxStatus::Pending,
            r.attempts == 0,
            r.last_error is None,
            r.queued_at == at,
            r.last_attempt_at is None,
            r.processing_started_at is None,
    {
        SyncOutboxItem {
            id,
            event_id,
            status: SyncOutboxStatus::Pending,
            attempts: 0,
            last_error: None,
            queued_at: at,
            last_attempt_at: None,
            processing_started_at: None,
        }
    }

    /// A new pending item with a random id, queued now (see `new_at`).
    pub fn new(event_id: Uuid) -> (r: SyncOutboxItem)
        ensures
            r.event_id == event_id,
            r.status == SyncOutboxStatus::Pending,
            r.attempts == 0,
            r.last_error is None,
            r.queued_at.in_range(),
            r.last_attempt_at is None,
            r.processing_started_at is None,
    {
        Self::new_at(Uuid::new_v4(), event_id, now())
    }
}

/// Parses an outbox status; the error is the message of the unknown string.
pub fn parse_outbox_status(raw: &str) -> (r: Result<SyncOutboxStatus, String>)
    ensures
        match r {
            Ok(s) => SyncOutboxStatus::from_wire(raw@) == Some(s),
            Err(m) => SyncOutboxStatus::from_wire(raw@) is None && m@ == "unknown CORE kind: "@ + raw@,
        },
{
    match SyncOutboxStatus::parse(raw) {
        Ok(s) => Ok(s),
        Err(e) => Err(e.message()),
    }
}

/// Parses a record kind; the error is the message of the unknown string.
pub fn parse_record_kind(raw: &str) -> (r: Result<CoreRecordKind, String>)
    ensures
        match r {
            Ok(k) => CoreRecordKind::from_wire(raw@) == Some(k),
            Err(m) => CoreRecordKind::from_wire(raw@) is None && m@ == "unknown CORE kind: "@ + raw@,
        },
{
    match CoreRecordKind::parse(raw) {
        Ok(k) => Ok(k),
        Err(e) => Err(e.message()),
    }
}

} // verus!

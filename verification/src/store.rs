//! The local store's rules that do not touch SQLite: what a record becomes
//! before it is written, how stored columns read back as rows, and what a
//! store at a given schema version needs.

use crate::contract::{merged_payload_text, spec_validation_issues, ContractError, RecordContract};
use crate::ids::{uuid_error_text, uuid_parse, uuid_text, Uuid};
use crate::json::{as_str, doc_members, get_str, into_members, json_parse, lookup};
use crate::kinds::{CoreEventKind, CoreLinkKind, CoreRecordKind, SyncOutboxStatus};
use crate::models::{CoreEvent, CoreLink, CoreRecord, SyncOutboxItem};
use crate::text::{concat, i64_text, int_text, opt_view, owned, views};
use crate::time::{parse_rfc3339, rfc3339_parse, rfc3339_text, to_rfc3339, Timestamp};
use vstd::prelude::*;
use vstd::string::*;

verus! {

/// The schema version of the local store (that of the mobile app).
pub const SCHEMA_VERSION: i32 = 14;

/// The file name of the local store.
pub const DEFAULT_DB_FILENAME: &'static str = "core_os.db";

/// What opening a store at a schema version needs.
#[derive(Debug, Clone, Copy, PartialEq, Eq, Structural)]
pub enum MigrationStep {
    /// A fresh store: create the schema and set the version.
    CreateSchema,
    /// Already at `SCHEMA_VERSION`.
    UpToDate,
    /// Another version: refused.
    VersionMismatch { expected: i32, actual: i32 },
}

/// What a store at `version` needs: version 0 is a fresh store.
pub fn migration_for(version: i32) -> (r: MigrationStep)
    ensures
        r == if version == 0 {
            MigrationStep::CreateSchema
        } else if version == SCHEMA_VERSION {
            MigrationStep::UpToDate
        } else {
            MigrationStep::VersionMismatch { expected: SCHEMA_VERSION, actual: version }
        },
{
    if version == 0 {
        MigrationStep::CreateSchema
    } else if version == SCHEMA_VERSION {
        MigrationStep::UpToDate
    } else {
        MigrationStep::VersionMismatch { expected: SCHEMA_VERSION, actual: version }
    }
}

/// The selection of every column of `core_records`, in the order rows are
/// read back.
pub const RECORD_SELECT: &'static str = "SELECT id, kind, title, summary, status, payload_json, source_record_id, sort_at, created_at, updated_at, deleted_at, revision, schema_version, origin_device_id, external_id FROM core_records";

/// The selection of every column of `sync_outbox`, in the order rows are
/// read back.
pub const OUTBOX_SELECT: &'static str = "SELECT id, event_id, status, attempts, last_error, queued_at, last_attempt_at, processing_started_at FROM sync_outbox";

/// `n` SQL parameter marks, separated by commas.
pub open spec fn placeholders(n: nat) -> Seq<char>
    decreases n,
{
    if n <= 1 {
        "?"@
    } else {
        placeholders((n - 1) as nat) + ", ?"@
    }
}

/// The query for the records of `n` kinds, newest first by sort date, then
/// by creation, leaving deleted ones out unless asked.
pub open spec fn spec_records_by_kinds_sql(n: nat, include_deleted: bool) -> Seq<char> {
    RECORD_SELECT@ + " WHERE kind IN ("@ + placeholders(n) + ")"@
        + (if include_deleted { Seq::<char>::empty() } else { " AND deleted_at IS NULL"@ })
        + " ORDER BY sort_at DESC, created_at DESC"@
}

/// The query for the records of some kinds and its parameters, the kinds'
/// wire strings; none for no kinds, whose answer is no record.
pub fn records_by_kinds_query(kinds: &Vec<CoreRecordKind>, include_deleted: bool) -> (r: Option<(String, Vec<String>)>)
    ensures
        r is None <==> kinds@.len() == 0,
        r matches Some(q) ==> {
            &&& q.0@ == spec_records_by_kinds_sql(kinds@.len(), include_deleted)
            &&& q.1@.len() == kinds@.len()
            &&& forall|i: int| 0 <= i < kinds@.len() ==> #[trigger] q.1@[i]@ == kinds@[i].wire()
        },
{
    let n: usize = kinds.len();
    if n == 0 {
        return None;
    }
    let mut marks = owned("?");
    let mut params: Vec<String> = Vec::new();
    params.push(kinds[0].to_wire_string());
    let mut i: usize = 1;
    while i < n
        invariant
            n == kinds@.len(),
            1 <= i <= n,
            marks@ == placeholders(i as nat),
            params@.len() == i,
            forall|j: int| 0 <= j < i ==> #[trigger] params@[j]@ == kinds@[j].wire(),
        decreases n - i,
    {
        marks.append(", ?");
        params.push(kinds[i].to_wire_string());
        i = i + 1;
    }
    let mut sql = concat(RECORD_SELECT, " WHERE kind IN (");
    sql.append(marks.as_str());
    sql.append(")");
    if !include_deleted {
        sql.append(" AND deleted_at IS NULL");
    }
    sql.append(" ORDER BY sort_at DESC, created_at DESC");
    assert(sql@ =~= spec_records_by_kinds_sql(n as nat, include_deleted));
    Some((sql, params))
}

/// The query for outbox items, oldest queued first: of one status (its
/// parameter) or of any, and at most `limit` of them.
pub open spec fn spec_outbox_items_sql(by_status: bool, limit: Option<i32>) -> Seq<char> {
    OUTBOX_SELECT@
        + (if by_status { " WHERE status = ?1"@ } else { Seq::<char>::empty() })
        + " ORDER BY queued_at ASC"@
        + match limit {
            Some(l) => " LIMIT "@ + int_text(l as int),
            None => Seq::<char>::empty(),
        }
}

/// The query for outbox items and its status parameter, if any.
pub fn outbox_items_query(status: Option<SyncOutboxStatus>, limit: Option<i32>) -> (r: (String, Option<String>))
    ensures
        r.0@ == spec_outbox_items_sql(status is Some, limit),
        opt_view(r.1) == match status {
            Some(s) => Some(s.wire()),
            None => None,
        },
{
    let mut sql = owned(OUTBOX_SELECT);
    let param = match status {
        Some(s) => {
            sql.append(" WHERE status = ?1");
            Some(s.to_wire_string())
        },
        None => None,
    };
    sql.append(" ORDER BY queued_at ASC");
    match limit {
        Some(l) => {
            sql.append(" LIMIT ");
            let t = i64_text(l as i64);
            sql.append(t.as_str());
        },
        None => {},
    }
    assert(sql@ =~= spec_outbox_items_sql(status is Some, limit));
    (sql, param)
}

/// A record as it is written: merged with its defaults, and its external id.
#[derive(Debug, Clone)]
pub struct StoredRecord {
    pub record: CoreRecord,
    pub external_id: Option<String>,
}

/// The external id a record is stored with: payload member `externalId`
/// when it is a non-empty string, else the record's own.
pub open spec fn spec_store_external_id(r: CoreRecord) -> Option<Seq<char>> {
    let from_payload = match json_parse(r.payload_json@) {
        Some(d) => as_str(lookup(doc_members(d), "externalId"@)),
        None => None,
    };
    match from_payload {
        Some(s) => if s.len() > 0 { Some(s) } else { opt_view(r.external_id) },
        None => opt_view(r.external_id),
    }
}

/// Whether `r` is the outcome of making `record` ready to write with
/// `now_text` as a habit's start date: the record merged with the defaults
/// of its kind and its external id from the payload when set there, or the
/// merged record's contract issues (one alone, several as a list).
pub open spec fn prepared_as(record: CoreRecord, now_text: Seq<char>, r: Result<StoredRecord, ContractError>) -> bool {
    match r {
        Ok(s) => s.record == (CoreRecord { payload_json: s.record.payload_json, ..record })
            && s.record.payload_json@ == merged_payload_text(record.kind, record.payload_json@, now_text)
            && spec_validation_issues(s.record).len() == 0
            && opt_view(s.external_id) == spec_store_external_id(s.record),
        Err(ContractError::Validation(m)) => exists|p: String| #[trigger] p@ == merged_payload_text(record.kind, record.payload_json@, now_text)
            && spec_validation_issues(CoreRecord { payload_json: p, ..record }) == seq![m@],
        Err(ContractError::ValidationList(l)) => exists|p: String| #[trigger] p@ == merged_payload_text(record.kind, record.payload_json@, now_text)
            && spec_validation_issues(CoreRecord { payload_json: p, ..record }) == views(l@)
            && l@.len() > 1,
    }
}

/// A record made ready to write with `now_text` as a habit's start date:
/// merged with the defaults of its kind, then refused if it violates its
/// contract; its external id comes from the payload when set there.
pub fn prepare_record_for_store_at(record: CoreRecord, now_text: &str) -> (r: Result<StoredRecord, ContractError>)
    ensures
        prepared_as(record, now_text@, r),
{
    let normalized = RecordContract::with_merged_payload_at(record, now_text);
    match RecordContract::validate(&normalized) {
        Ok(()) => {},
        Err(e) => return Err(e),
    }
    let from_payload = match normalized.payload() {
        Some(doc) => {
            let fields = into_members(doc);
            get_str(&fields, "externalId")
        },
        None => None,
    };
    let external_id = match from_payload {
        Some(s) => if s.as_str().unicode_len() > 0 { Some(s) } else { crate::text::clone_opt(&normalized.external_id) },
        None => crate::text::clone_opt(&normalized.external_id),
    };
    Ok(StoredRecord { record: normalized, external_id })
}

/// A record made ready to write; a habit starts now (see
/// `prepare_record_for_store_at`).
pub fn prepare_record_for_store(record: CoreRecord) -> (r: Result<StoredRecord, ContractError>)
    ensures
        exists|t: Timestamp| #[trigger] t.in_range() && prepared_as(record, rfc3339_text(t.secs, t.nanos), r),
{
    let t = crate::time::now();
    let text = crate::time::to_rfc3339(&t);
    prepare_record_for_store_at(record, text.as_str())
}

/// Why a stored row does not read back.
#[derive(Debug, Clone)]
pub enum RowError {
    /// An unknown kind or status; the message.
    UnknownKind(String),
    /// A column that is not a UUID; the parser's message.
    InvalidUuid(String),
    /// A column that is not RFC 3339 text; the text.
    InvalidTimestamp(String),
}

/// Reads a UUID column.
pub fn parse_uuid(raw: &str) -> (r: Result<Uuid, RowError>)
    ensures
        match uuid_parse(raw@) {
            Some(v) => r == Ok::<Uuid, RowError>(Uuid { value: v }),
            None => r matches Err(RowError::InvalidUuid(m)) && m@ == uuid_error_text(raw@),
        },
{
    match Uuid::try_parse(raw) {
        Ok(u) => Ok(u),
        Err(m) => Err(RowError::InvalidUuid(m)),
    }
}

/// Reads an optional UUID column.
pub fn optional_uuid(raw: &Option<String>) -> (r: Result<Option<Uuid>, RowError>)
    ensures
        match opt_view(*raw) {
            None => r == Ok::<Option<Uuid>, RowError>(None),
            Some(s) => match uuid_parse(s) {
                Some(v) => r == Ok::<Option<Uuid>, RowError>(Some(Uuid { value: v })),
                None => r matches Err(RowError::InvalidUuid(m)) && m@ == uuid_error_text(s),
            },
        },
{
    match raw {
        None => Ok(None),
        Some(s) => match parse_uuid(s.as_str()) {
            Ok(u) => Ok(Some(u)),
            Err(e) => Err(e),
        },
    }
}

/// Reads an instant column.
pub fn parse_dt(raw: &str) -> (r: Result<Timestamp, RowError>)
    ensures
        match rfc3339_parse(raw@) {
            Some(p) => r == Ok::<Timestamp, RowError>(Timestamp { secs: p.0, nanos: p.1 }) && r->Ok_0.in_range(),
            None => r matches Err(RowError::InvalidTimestamp(m)) && m@ == raw@,
        },
{
    match parse_rfc3339(raw) {
        Some(t) => Ok(t),
        None => Err(RowError::InvalidTimestamp(crate::text::owned(raw))),
    }
}

/// Reads an optional instant column.
pub fn optional_dt(raw: &Option<String>) -> (r: Result<Option<Timestamp>, RowError>)
    ensures
        match opt_view(*raw) {
            None => r == Ok::<Option<Timestamp>, RowError>(None),
            Some(s) => match rfc3339_parse(s) {
                Some(p) => r == Ok::<Option<Timestamp>, RowError>(Some(Timestamp { secs: p.0, nanos: p.1 })),
                None => r matches Err(RowError::InvalidTimestamp(m)) && m@ == s,
            },
        },
{
    match raw {
        None => Ok(None),
        Some(s) => match parse_dt(s.as_str()) {
            Ok(t) => Ok(Some(t)),
            Err(e) => Err(e),
        },
    }
}

/// The columns of a stored record, as the store gives them.
#[derive(Debug, Clone)]
pub struct RecordColumns {
    pub id: String,
    pub kind: String,
    pub title: String,
    pub summary: Option<String>,
    pub status: String,
    pub payload_json: String,
    pub source_record_id: Option<String>,
    pub sort_at: String,
    pub created_at: String,
    pub updated_at: String,
    pub deleted_at: Option<String>,
    pub revision: i32,
    pub schema_version: i32,
    pub origin_device_id: String,
    pub external_id: Option<String>,
}

/// The instant of a column that is RFC 3339 text.
pub open spec fn col_time(s: Seq<char>) -> Option<Timestamp> {
    match rfc3339_parse(s) {
        Some(p) => Some(Timestamp { secs: p.0, nanos: p.1 }),
        None => None,
    }
}

/// Whether every column of a stored record reads back: kind, UUIDs and
/// instants.
pub open spec fn record_columns_read(c: RecordColumns) -> bool {
    &&& CoreRecordKind::from_wire(c.kind@) is Some
    &&& uuid_parse(c.id@) is Some
    &&& (opt_view(c.source_record_id) matches Some(s) ==> uuid_parse(s) is Some)
    &&& col_time(c.sort_at@) is Some
    &&& col_time(c.created_at@) is Some
    &&& col_time(c.updated_at@) is Some
    &&& (opt_view(c.deleted_at) matches Some(s) ==> col_time(s) is Some)
}

/// Reads a stored record back; the first column that does not read (kind,
/// id, source, then the instants in order) refuses the row.
pub fn record_from_columns(c: RecordColumns) -> (r: Result<CoreRecord, RowError>)
    ensures
        record_columns_read(c) <==> r is Ok,
        r matches Ok(rec) ==> {
            &&& Some(rec.kind) == CoreRecordKind::from_wire(c.kind@)
            &&& Some(rec.id.value) == uuid_parse(c.id@)
            &&& rec.title@ == c.title@
            &&& opt_view(rec.summary) == opt_view(c.summary)
            &&& rec.status@ == c.status@
            &&& rec.payload_json@ == c.payload_json@
            &&& rec.source_record_id == match opt_view(c.source_record_id) {
                Some(s) => Some(Uuid { value: uuid_parse(s)->0 }),
                None => None,
            }
            &&& Some(rec.sort_at) == col_time(c.sort_at@)
            &&& Some(rec.created_at) == col_time(c.created_at@)
            &&& Some(rec.updated_at) == col_time(c.updated_at@)
            &&& rec.deleted_at == match opt_view(c.deleted_at) {
                Some(s) => col_time(s),
                None => None,
            }
            &&& rec.revision == c.revision
            &&& rec.schema_version == c.schema_version
            &&& rec.origin_device_id@ == c.origin_device_id@
            &&& opt_view(rec.external_id) == opt_view(c.external_id)
        },
        r matches Err(RowError::UnknownKind(m)) ==> CoreRecordKind::from_wire(c.kind@) is None
            && m@ == "unknown CORE kind: "@ + c.kind@,
{
    let kind = match crate::models::parse_record_kind(c.kind.as_str()) {
        Ok(k) => k,
        Err(m) => return Err(RowError::UnknownKind(m)),
    };
    let id = parse_uuid(c.id.as_str())?;
    let source_record_id = optional_uuid(&c.source_record_id)?;
    let sort_at = parse_dt(c.sort_at.as_str())?;
    let created_at = parse_dt(c.created_at.as_str())?;
    let updated_at = parse_dt(c.updated_at.as_str())?;
    let deleted_at = optional_dt(&c.deleted_at)?;
    Ok(CoreRecord {
        id,
        kind,
        title: c.title,
        summary: c.summary,
        status: c.status,
        payload_json: c.payload_json,
        source_record_id,
        sort_at,
        created_at,
        updated_at,
        deleted_at,
        revision: c.revision,
        schema_version: c.schema_version,
        origin_device_id: c.origin_device_id,
        external_id: c.external_id,
    })
}

/// The columns of a stored event.
#[derive(Debug, Clone)]
pub struct EventColumns {
    pub id: String,
    pub record_id: String,
    pub kind: String,
    pub payload_json: String,
    pub occurred_at: String,
    pub actor_type: String,
    pub actor_id: Option<String>,
    pub origin_device_id: String,
    pub base_revision: i32,
    pub created_at: String,
}

/// Reads a stored event back; the first column that does not read (kind,
/// id, record id, then the instants in order) refuses the row.
pub fn event_from_columns(c: EventColumns) -> (r: Result<CoreEvent, RowError>)
    ensures
        (CoreEventKind::from_wire(c.kind@) is Some && uuid_parse(c.id@) is Some && uuid_parse(c.record_id@) is Some
            && col_time(c.occurred_at@) is Some && col_time(c.created_at@) is Some) <==> r is Ok,
        r matches Ok(e) ==> {
            &&& Some(e.kind) == CoreEventKind::from_wire(c.kind@)
            &&& Some(e.id.value) == uuid_parse(c.id@)
            &&& Some(e.record_id.value) == uuid_parse(c.record_id@)
            &&& e.payload_json@ == c.payload_json@
            &&& Some(e.occurred_at) == col_time(c.occurred_at@)
            &&& e.actor_type@ == c.actor_type@
            &&& opt_view(e.actor_id) == opt_view(c.actor_id)
            &&& e.origin_device_id@ == c.origin_device_id@
            &&& e.base_revision == c.base_revision
            &&& Some(e.created_at) == col_time(c.created_at@)
        },
        r matches Err(RowError::UnknownKind(m)) ==> CoreEventKind::from_wire(c.kind@) is None
            && m@ == "unknown CORE kind: "@ + c.kind@,
{
    let kind = match CoreEventKind::parse(c.kind.as_str()) {
        Ok(k) => k,
        Err(e) => return Err(RowError::UnknownKind(e.message())),
    };
    let id = parse_uuid(c.id.as_str())?;
    let record_id = parse_uuid(c.record_id.as_str())?;
    let occurred_at = parse_dt(c.occurred_at.as_str())?;
    let created_at = parse_dt(c.created_at.as_str())?;
    Ok(CoreEvent {
        id,
        record_id,
        kind,
        payload_json: c.payload_json,
        occurred_at,
        actor_type: c.actor_type,
        actor_id: c.actor_id,
        origin_device_id: c.origin_device_id,
        base_revision: c.base_revision,
        created_at,
    })
}

/// The columns of a stored link.
#[derive(Debug, Clone)]
pub struct LinkColumns {
    pub id: String,
    pub source_record_id: String,
    pub target_record_id: String,
    pub kind: String,
    pub metadata_json: String,
    pub created_at: String,
}

/// Reads a stored link back; the first column that does not read (kind, id,
/// source, target, creation) refuses the row.
pub fn link_from_columns(c: LinkColumns) -> (r: Result<CoreLink, RowError>)
    ensures
        (CoreLinkKind::from_wire(c.kind@) is Some && uuid_parse(c.id@) is Some && uuid_parse(c.source_record_id@) is Some
            && uuid_parse(c.target_record_id@) is Some && col_time(c.created_at@) is Some) <==> r is Ok,
        r matches Ok(l) ==> {
            &&& Some(l.kind) == CoreLinkKind::from_wire(c.kind@)
            &&& Some(l.id.value) == uuid_parse(c.id@)
            &&& Some(l.source_record_id.value) == uuid_parse(c.source_record_id@)
            &&& Some(l.target_record_id.value) == uuid_parse(c.target_record_id@)
            &&& l.metadata_json@ == c.metadata_json@
            &&& Some(l.created_at) == col_time(c.created_at@)
        },
        r matches Err(RowError::UnknownKind(m)) ==> CoreLinkKind::from_wire(c.kind@) is None
            && m@ == "unknown CORE kind: "@ + c.kind@,
{
    let kind = match CoreLinkKind::parse(c.kind.as_str()) {
        Ok(k) => k,
        Err(e) => return Err(RowError::UnknownKind(e.message())),
    };
    let id = parse_uuid(c.id.as_str())?;
    let source_record_id = parse_uuid(c.source_record_id.as_str())?;
    let target_record_id = parse_uuid(c.target_record_id.as_str())?;
    let created_at = parse_dt(c.created_at.as_str())?;
    Ok(CoreLink { id, source_record_id, target_record_id, kind, metadata_json: c.metadata_json, created_at })
}

/// The columns of a stored outbox item.
#[derive(Debug, Clone)]
pub struct OutboxColumns {
    pub id: String,
    pub event_id: String,
    pub status: String,
    pub attempts: i32,
    pub last_error: Option<String>,
    pub queued_at: String,
    pub last_attempt_at: Option<String>,
    pub processing_started_at: Option<String>,
}

/// Reads a stored outbox item back; the first column that does not read
/// (status, id, event id, then the instants in order) refuses the row.
pub fn outbox_from_columns(c: OutboxColumns) -> (r: Result<SyncOutboxItem, RowError>)
    ensures
        (SyncOutboxStatus::from_wire(c.status@) is Some && uuid_parse(c.id@) is Some && uuid_parse(c.event_id@) is Some
            && col_time(c.queued_at@) is Some
            && (opt_view(c.last_attempt_at) matches Some(s) ==> col_time(s) is Some)
            && (opt_view(c.processing_started_at) matches Some(s) ==> col_time(s) is Some)) <==> r is Ok,
        r matches Ok(o) ==> {
            &&& Some(o.status) == SyncOutboxStatus::from_wire(c.status@)
            &&& Some(o.id.value) == uuid_parse(c.id@)
            &&& Some(o.event_id.value) == uuid_parse(c.event_id@)
            &&& o.attempts == c.attempts
            &&& opt_view(o.last_error) == opt_view(c.last_error)
            &&& Some(o.queued_at) == col_time(c.queued_at@)
            &&& o.last_attempt_at == match opt_view(c.last_attempt_at) {
                Some(s) => col_time(s),
                None => None,
            }
            &&& o.processing_started_at == match opt_view(c.processing_started_at) {
                Some(s) => col_time(s),
                None => None,
            }
        },
        r matches Err(RowError::UnknownKind(m)) ==> SyncOutboxStatus::from_wire(c.status@) is None
            && m@ == "unknown CORE kind: "@ + c.status@,
{
    let status = match crate::models::parse_outbox_status(c.status.as_str()) {
        Ok(s) => s,
        Err(m) => return Err(RowError::UnknownKind(m)),
    };
    let id = parse_uuid(c.id.as_str())?;
    let event_id = parse_uuid(c.event_id.as_str())?;
    let queued_at = parse_dt(c.queued_at.as_str())?;
    let last_attempt_at = optional_dt(&c.last_attempt_at)?;
    let processing_started_at = optional_dt(&c.processing_started_at)?;
    Ok(SyncOutboxItem {
        id,
        event_id,
        status,
        attempts: c.attempts,
        last_error: c.last_error,
        queued_at,
        last_attempt_at,
        processing_started_at,
    })
}

/// The RFC 3339 column of an optional instant.
pub open spec fn opt_time_text(t: Option<Timestamp>) -> Option<Seq<char>> {
    match t {
        Some(x) => Some(rfc3339_text(x.secs, x.nanos)),
        None => None,
    }
}

/// The UUID column of an optional id.
pub open spec fn opt_uuid_text(u: Option<Uuid>) -> Option<Seq<char>> {
    match u {
        Some(x) => Some(uuid_text(x.value)),
        None => None,
    }
}

/// Whether an optional instant is absent or has a four-digit year.
pub open spec fn opt_four_digit_year(t: Option<Timestamp>) -> bool {
    match t {
        Some(x) => x.four_digit_year(),
        None => true,
    }
}

/// Whether an optional UUID column reads back as `u`.
pub open spec fn opt_uuid_reads_back(col: Option<Seq<char>>, u: Option<Uuid>) -> bool {
    match (col, u) {
        (Some(s), Some(x)) => uuid_parse(s) == Some(x.value),
        (None, None) => true,
        _ => false,
    }
}

/// Whether an optional instant column reads back as `t`.
pub open spec fn opt_time_reads_back(col: Option<Seq<char>>, t: Option<Timestamp>) -> bool {
    match (col, t) {
        (Some(s), Some(x)) => col_time(s) == Some(x),
        (None, None) => true,
        _ => false,
    }
}

fn time_column(t: &Timestamp) -> (r: String)
    requires
        t.in_range(),
    ensures
        r@ == rfc3339_text(t.secs, t.nanos),
        t.four_digit_year() ==> col_time(r@) == Some(*t),
{
    to_rfc3339(t)
}

fn opt_time_column(t: &Option<Timestamp>) -> (r: Option<String>)
    requires
        crate::models::opt_in_range(*t),
    ensures
        opt_view(r) == opt_time_text(*t),
        opt_four_digit_year(*t) ==> opt_time_reads_back(opt_view(r), *t),
{
    match t {
        Some(x) => Some(time_column(x)),
        None => None,
    }
}

fn opt_uuid_column(u: &Option<Uuid>) -> (r: Option<String>)
    ensures
        opt_view(r) == opt_uuid_text(*u),
        opt_uuid_reads_back(opt_view(r), *u),
{
    match u {
        Some(x) => Some(x.to_text()),
        None => None,
    }
}

/// Whether every instant of a record has a four-digit year.
pub open spec fn record_four_digit_years(r: CoreRecord) -> bool {
    &&& r.sort_at.four_digit_year()
    &&& r.created_at.four_digit_year()
    &&& r.updated_at.four_digit_year()
    &&& opt_four_digit_year(r.deleted_at)
}

/// Whether stored record columns read back as the record `r`: every column
/// reads (see `record_columns_read`), and the kind, ids and instants read
/// are `r`'s.
pub open spec fn record_reads_back(c: RecordColumns, r: CoreRecord) -> bool {
    &&& record_columns_read(c)
    &&& CoreRecordKind::from_wire(c.kind@) == Some(r.kind)
    &&& uuid_parse(c.id@) == Some(r.id.value)
    &&& opt_uuid_reads_back(opt_view(c.source_record_id), r.source_record_id)
    &&& col_time(c.sort_at@) == Some(r.sort_at)
    &&& col_time(c.created_at@) == Some(r.created_at)
    &&& col_time(c.updated_at@) == Some(r.updated_at)
    &&& opt_time_reads_back(opt_view(c.deleted_at), r.deleted_at)
}

/// The columns a prepared record is written as: ids and instants as text,
/// the kind's wire string, the other fields as they are, and the external
/// id it is stored with. Where its instants have four-digit years, the
/// columns read back as the record (`record_from_columns` gives it again).
pub fn record_columns(s: &StoredRecord) -> (c: RecordColumns)
    requires
        s.record.times_in_range(),
    ensures
        c.id@ == uuid_text(s.record.id.value),
        c.kind@ == s.record.kind.wire(),
        c.title@ == s.record.title@,
        opt_view(c.summary) == opt_view(s.record.summary),
        c.status@ == s.record.status@,
        c.payload_json@ == s.record.payload_json@,
        opt_view(c.source_record_id) == opt_uuid_text(s.record.source_record_id),
        c.sort_at@ == rfc3339_text(s.record.sort_at.secs, s.record.sort_at.nanos),
        c.created_at@ == rfc3339_text(s.record.created_at.secs, s.record.created_at.nanos),
        c.updated_at@ == rfc3339_text(s.record.updated_at.secs, s.record.updated_at.nanos),
        opt_view(c.deleted_at) == opt_time_text(s.record.deleted_at),
        c.revision == s.record.revision,
        c.schema_version == s.record.schema_version,
        c.origin_device_id@ == s.record.origin_device_id@,
        opt_view(c.external_id) == opt_view(s.external_id),
        record_four_digit_years(s.record) ==> record_reads_back(c, s.record),
{
    let r = &s.record;
    let c = RecordColumns {
        id: r.id.to_text(),
        kind: r.kind.to_wire_string(),
        title: r.title.clone(),
        summary: crate::text::clone_opt(&r.summary),
        status: r.status.clone(),
        payload_json: r.payload_json.clone(),
        source_record_id: opt_uuid_column(&r.source_record_id),
        sort_at: time_column(&r.sort_at),
        created_at: time_column(&r.created_at),
        updated_at: time_column(&r.updated_at),
        deleted_at: opt_time_column(&r.deleted_at),
        revision: r.revision,
        schema_version: r.schema_version,
        origin_device_id: r.origin_device_id.clone(),
        external_id: crate::text::clone_opt(&s.external_id),
    };
    proof {
        crate::kinds::lemma_record_kind_wire_roundtrip(r.kind, c.kind@);
    }
    c
}

/// The columns an event is written as. Where its instants have four-digit
/// years, they read back as the event (`event_from_columns` gives it again).
pub fn event_columns(e: &CoreEvent) -> (c: EventColumns)
    requires
        e.times_in_range(),
    ensures
        c.id@ == uuid_text(e.id.value),
        c.record_id@ == uuid_text(e.record_id.value),
        c.kind@ == e.kind.wire(),
        c.payload_json@ == e.payload_json@,
        c.occurred_at@ == rfc3339_text(e.occurred_at.secs, e.occurred_at.nanos),
        c.actor_type@ == e.actor_type@,
        opt_view(c.actor_id) == opt_view(e.actor_id),
        c.origin_device_id@ == e.origin_device_id@,
        c.base_revision == e.base_revision,
        c.created_at@ == rfc3339_text(e.created_at.secs, e.created_at.nanos),
        e.occurred_at.four_digit_year() && e.created_at.four_digit_year() ==> {
            &&& CoreEventKind::from_wire(c.kind@) == Some(e.kind)
            &&& uuid_parse(c.id@) == Some(e.id.value)
            &&& uuid_parse(c.record_id@) == Some(e.record_id.value)
            &&& col_time(c.occurred_at@) == Some(e.occurred_at)
            &&& col_time(c.created_at@) == Some(e.created_at)
        },
{
    let c = EventColumns {
        id: e.id.to_text(),
        record_id: e.record_id.to_text(),
        kind: e.kind.to_wire_string(),
        payload_json: e.payload_json.clone(),
        occurred_at: time_column(&e.occurred_at),
        actor_type: e.actor_type.clone(),
        actor_id: crate::text::clone_opt(&e.actor_id),
        origin_device_id: e.origin_device_id.clone(),
        base_revision: e.base_revision,
        created_at: time_column(&e.created_at),
    };
    proof {
        crate::kinds::lemma_event_kind_wire_roundtrip(e.kind, c.kind@);
    }
    c
}

/// The columns a link is written as. Where its instant has a four-digit
/// year, they read back as the link (`link_from_columns` gives it again).
pub fn link_columns(l: &CoreLink) -> (c: LinkColumns)
    requires
        l.created_at.in_range(),
    ensures
        c.id@ == uuid_text(l.id.value),
        c.source_record_id@ == uuid_text(l.source_record_id.value),
        c.target_record_id@ == uuid_text(l.target_record_id.value),
        c.kind@ == l.kind.wire(),
        c.metadata_json@ == l.metadata_json@,
        c.created_at@ == rfc3339_text(l.created_at.secs, l.created_at.nanos),
        l.created_at.four_digit_year() ==> {
            &&& CoreLinkKind::from_wire(c.kind@) == Some(l.kind)
            &&& uuid_parse(c.id@) == Some(l.id.value)
            &&& uuid_parse(c.source_record_id@) == Some(l.source_record_id.value)
            &&& uuid_parse(c.target_record_id@) == Some(l.target_record_id.value)
            &&& col_time(c.created_at@) == Some(l.created_at)
        },
{
    let c = LinkColumns {
        id: l.id.to_text(),
        source_record_id: l.source_record_id.to_text(),
        target_record_id: l.target_record_id.to_text(),
        kind: l.kind.to_wire_string(),
        metadata_json: l.metadata_json.clone(),
        created_at: time_column(&l.created_at),
    };
    proof {
        crate::kinds::lemma_link_kind_wire_roundtrip(l.kind, c.kind@);
    }
    c
}

/// The columns an outbox item is written as. Where its instants have
/// four-digit years, they read back as the item (`outbox_from_columns`
/// gives it again).
pub fn outbox_columns(o: &SyncOutboxItem) -> (c: OutboxColumns)
    requires
        o.queued_at.in_range(),
        crate::models::opt_in_range(o.last_attempt_at),
        crate::models::opt_in_range(o.processing_started_at),
    ensures
        c.id@ == uuid_text(o.id.value),
        c.event_id@ == uuid_text(o.event_id.value),
        c.status@ == o.status.wire(),
        c.attempts == o.attempts,
        opt_view(c.last_error) == opt_view(o.last_error),
        c.queued_at@ == rfc3339_text(o.queued_at.secs, o.queued_at.nanos),
        opt_view(c.last_attempt_at) == opt_time_text(o.last_attempt_at),
        opt_view(c.processing_started_at) == opt_time_text(o.processing_started_at),
        o.queued_at.four_digit_year() && opt_four_digit_year(o.last_attempt_at)
            && opt_four_digit_year(o.processing_started_at) ==> {
            &&& SyncOutboxStatus::from_wire(c.status@) == Some(o.status)
            &&& uuid_parse(c.id@) == Some(o.id.value)
            &&& uuid_parse(c.event_id@) == Some(o.event_id.value)
            &&& col_time(c.queued_at@) == Some(o.queued_at)
            &&& opt_time_reads_back(opt_view(c.last_attempt_at), o.last_attempt_at)
            &&& opt_time_reads_back(opt_view(c.processing_started_at), o.processing_started_at)
        },
{
    let c = OutboxColumns {
        id: o.id.to_text(),
        event_id: o.event_id.to_text(),
        status: o.status.to_wire_string(),
        attempts: o.attempts,
        last_error: crate::text::clone_opt(&o.last_error),
        queued_at: time_column(&o.queued_at),
        last_attempt_at: opt_time_column(&o.last_attempt_at),
        processing_started_at: opt_time_column(&o.processing_started_at),
    };
    proof {
        crate::kinds::lemma_outbox_status_wire_roundtrip(o.status, c.status@);
    }
    c
}

} // verus!

//! The local write path: what each command writes as a record, the change
//! event that describes it, and the outbox item that will push the event.
//! Reading the record a command works on, and the writes themselves, are done
//! by the caller against the store.

use crate::contract::{merged_payload_text, RecordContract};
use crate::ids::Uuid;
use crate::json::{json_print, members, print_object, DocView, JsonValue, JsonView, Members, lookup, as_str, doc_members, json_parse, get_str, into_members};
use crate::kinds::{CoreEventKind, CoreRecordKind};
use crate::layout::{bottoms_fit, can_install, clamp_layout, next_available_row, spec_clamp, spec_clamp_layout_to, spec_next_available_row, COLUMN_COUNT};
use crate::models::{CoreEvent, CoreRecord, SyncOutboxItem};
use crate::projections::WidgetInstanceProjection;
use crate::text::{owned, str_eq};
use crate::time::{now, rfc3339_text, to_rfc3339, Timestamp};
use crate::widget_catalog::WidgetCatalogEntry;
use vstd::prelude::*;

verus! {

/// Why a command was refused.
#[derive(Debug, Clone)]
pub enum CommandError {
    /// The store failed; the message says how.
    Repository(String),
    /// A widget that allows one instance is already installed.
    WidgetAlreadyInstalled(String),
    /// No active widget with this id.
    WidgetNotFound(Uuid),
}

impl CommandError {
    /// The error's message, as `Display` would print it.
    pub fn message(&self) -> (r: String)
        ensures
            r@ == match self {
                CommandError::Repository(m) => "repository: "@ + m@,
                CommandError::WidgetAlreadyInstalled(t) => "widget already installed: "@ + t@,
                CommandError::WidgetNotFound(id) => "widget not found: "@ + crate::ids::uuid_text(id.value),
            },
    {
        match self {
            CommandError::Repository(m) => crate::text::concat("repository: ", m.as_str()),
            CommandError::WidgetAlreadyInstalled(t) => crate::text::concat("widget already installed: ", t.as_str()),
            CommandError::WidgetNotFound(id) => {
                let t = id.to_text();
                crate::text::concat("widget not found: ", t.as_str())
            },
        }
    }
}

/// A widget's new place and size on the grid.
#[derive(Debug, Clone, Copy)]
pub struct WidgetLayoutInput {
    pub id: Uuid,
    pub pos_x: i32,
    pub pos_y: i32,
    pub width: i32,
    pub height: i32,
}

/// Everything one command writes: the record, its change event, and the
/// outbox item for the event.
#[derive(Debug, Clone)]
pub struct RecordWrite {
    pub record: CoreRecord,
    pub event: CoreEvent,
    pub outbox: SyncOutboxItem,
}

/// The write path of one device.
pub struct CommandService {
    pub origin_device_id: String,
}

/// A member of a JSON object.
pub fn member(key: &str, value: JsonValue) -> (r: (String, JsonValue))
    ensures
        r.0@ == key@,
        r.1 == value,
{
    (owned(key), value)
}

/// The JSON value of a string.
pub open spec fn jstr(s: Seq<char>) -> JsonView {
    JsonView::Str(s)
}

/// The payload of a widget record.
pub open spec fn widget_payload(widget_type: Seq<char>, x: i32, y: i32, w: i32, h: i32, config: Seq<char>) -> Members {
    seq![
        ("widgetType"@, jstr(widget_type)),
        ("posX"@, JsonView::Int(x as i64)),
        ("posY"@, JsonView::Int(y as i64)),
        ("width"@, JsonView::Int(w as i64)),
        ("height"@, JsonView::Int(h as i64)),
        ("configJson"@, jstr(config)),
    ]
}

/// The payload of a widget's change event.
pub open spec fn widget_event_payload(widget_type: Seq<char>, x: i32, y: i32, w: i32, h: i32) -> Members {
    seq![
        ("widgetType"@, jstr(widget_type)),
        ("posX"@, JsonView::Int(x as i64)),
        ("posY"@, JsonView::Int(y as i64)),
        ("width"@, JsonView::Int(w as i64)),
        ("height"@, JsonView::Int(h as i64)),
    ]
}

/// The payload of a new task: optional due date, no source capture, not
/// completed, and the title to show.
pub open spec fn task_payload(title: Seq<char>, due_text: Option<Seq<char>>) -> Members {
    seq![
        ("dueAt"@, match due_text {
            Some(t) => jstr(t),
            None => JsonView::Null,
        }),
        ("sourceCaptureId"@, jstr(""@)),
        ("isCompleted"@, JsonView::Bool(false)),
        ("displayTitle"@, jstr(title)),
    ]
}

/// Whether `e` and `o` are the change event and outbox item written with
/// `rec`: an event of `kind` on the record, from `device`, at the record's
/// revision, with payload `payload`; and a fresh pending item for the event.
pub open spec fn change_of(rec: CoreRecord, e: CoreEvent, o: SyncOutboxItem, kind: CoreEventKind, payload: Members, device: Seq<char>) -> bool {
    &&& e.record_id == rec.id
    &&& e.kind == kind
    &&& e.payload_json@ == json_print(DocView::Object(payload))
    &&& e.occurred_at == e.created_at
    &&& e.created_at.in_range()
    &&& e.actor_type@ == "system"@
    &&& e.actor_id is None
    &&& e.origin_device_id@ == device
    &&& e.base_revision == rec.revision
    &&& o.event_id == e.id
    &&& o.status == crate::kinds::SyncOutboxStatus::Pending
    &&& o.attempts == 0
    &&& o.last_error is None
    &&& o.queued_at.in_range()
    &&& o.last_attempt_at is None
    &&& o.processing_started_at is None
}

/// Whether `rec` is the widget record written for `widget_type` at the given
/// place and size, with configuration `config`, by `device`: a new record
/// (`existing` absent; revision 1, created now) or the next revision of
/// `existing` (same id and creation), updated now, with its payload merged
/// with the widget defaults.
pub open spec fn widget_record_of(rec: CoreRecord, existing: Option<CoreRecord>, widget_type: Seq<char>,
    x: i32, y: i32, w: i32, h: i32, config: Seq<char>, device: Seq<char>) -> bool {
    &&& match existing {
        Some(e) => rec.id == e.id && rec.created_at == e.created_at && rec.revision == e.revision + 1,
        None => rec.created_at == rec.updated_at && rec.revision == 1,
    }
    &&& rec.kind == CoreRecordKind::WidgetInstance
    &&& rec.title@ == widget_type
    &&& rec.summary matches Some(s) && s@ == "Dashboard widget instance"@
    &&& rec.status@ == "active"@
    &&& rec.payload_json@ == merged_payload_text(CoreRecordKind::WidgetInstance,
        json_print(DocView::Object(widget_payload(widget_type, x, y, w, h, config))), ""@)
    &&& rec.source_record_id is None
    &&& rec.sort_at == rec.created_at
    &&& rec.updated_at.in_range()
    &&& rec.deleted_at is None
    &&& rec.schema_version == 1
    &&& rec.origin_device_id@ == device
    &&& rec.external_id is None
}

impl CommandService {
    /// The write path of device `origin_device_id`.
    pub fn new(origin_device_id: String) -> (r: CommandService)
        ensures
            r.origin_device_id@ == origin_device_id@,
    {
        CommandService { origin_device_id }
    }

    /// The change event and outbox item that go with writing `record`: an
    /// event of `event_kind` with `event_payload`, from this device, at the
    /// record's revision; and a pending outbox item for it. Ids and instants
    /// are fresh.
    pub fn write_record_change(&self, record: CoreRecord, event_kind: CoreEventKind, event_payload: Vec<(String, JsonValue)>) -> (r: RecordWrite)
        ensures
            r.record == record,
            change_of(r.record, r.event, r.outbox, event_kind, members(event_payload@), self.origin_device_id@),
    {
        let mut event = CoreEvent::new(record.id, event_kind);
        event.origin_device_id = self.origin_device_id.clone();
        event.base_revision = record.revision;
        event.payload_json = print_object(event_payload);
        let outbox = SyncOutboxItem::new(event.id);
        RecordWrite { record, event, outbox }
    }

    /// A new task titled `title`, due at `due_at` if given, from this device:
    /// its payload carries the due date as RFC 3339 text, an empty source
    /// capture, `isCompleted` false and the title to show, merged with the
    /// task defaults; it is written with a `record_created` event whose
    /// payload is `{}`.
    pub fn create_task(&self, title: String, due_at: Option<Timestamp>) -> (r: RecordWrite)
        requires
            due_at matches Some(d) ==> d.in_range(),
        ensures
            r.record.kind == CoreRecordKind::Task,
            r.record.title@ == title@,
            r.record.summary is None,
            r.record.status@ == "active"@,
            r.record.revision == 1,
            r.record.schema_version == 1,
            r.record.origin_device_id@ == self.origin_device_id@,
            r.record.sort_at == r.record.created_at,
            r.record.updated_at == r.record.created_at,
            r.record.created_at.in_range(),
            r.record.deleted_at is None,
            r.record.source_record_id is None,
            r.record.external_id is None,
            r.record.payload_json@ == merged_payload_text(CoreRecordKind::Task, json_print(DocView::Object(task_payload(title@,
                match due_at {
                    Some(d) => Some(rfc3339_text(d.secs, d.nanos)),
                    None => None,
                }))), ""@),
            change_of(r.record, r.event, r.outbox, CoreEventKind::RecordCreated, Seq::empty(), self.origin_device_id@),
    {
        let display = title.clone();
        let mut record = CoreRecord::new(CoreRecordKind::Task, title);
        record.origin_device_id = self.origin_device_id.clone();
        let due = match due_at {
            Some(d) => JsonValue::Str(to_rfc3339(&d)),
            None => JsonValue::Null,
        };
        let payload = vec![
            member("dueAt", due),
            member("sourceCaptureId", JsonValue::Str(owned(""))),
            member("isCompleted", JsonValue::Bool(false)),
            member("displayTitle", JsonValue::Str(display)),
        ];
        proof {
            assert(members(payload@) =~= task_payload(title@, match due_at {
                Some(d) => Some(rfc3339_text(d.secs, d.nanos)),
                None => None,
            }));
        }
        record.payload_json = print_object(payload);
        // The task defaults do not depend on the instant, so none is given.
        let record = RecordContract::with_merged_payload_at(record, "");
        let empty: Vec<(String, JsonValue)> = Vec::new();
        proof {
            assert(members(empty@) =~= Seq::<(Seq<char>, JsonView)>::empty());
        }
        self.write_record_change(record, CoreEventKind::RecordCreated, empty)
    }

    /// The widget record for `widget_type` at the given place and size (see
    /// `widget_record_of`), written with a `record_created` event when
    /// `is_new`, else `widget_layout_changed`; the event payload carries the
    /// type, place and size.
    pub fn create_widget_record(&self, existing: Option<CoreRecord>, widget_type: &str, pos_x: i32, pos_y: i32,
        width: i32, height: i32, config_json: &str, is_new: bool) -> (r: RecordWrite)
        requires
            existing matches Some(e) ==> e.revision < i32::MAX,
        ensures
            widget_record_of(r.record, existing, widget_type@, pos_x, pos_y, width, height, config_json@, self.origin_device_id@),
            change_of(r.record, r.event, r.outbox,
                if is_new { CoreEventKind::RecordCreated } else { CoreEventKind::WidgetLayoutChanged },
                widget_event_payload(widget_type@, pos_x, pos_y, width, height), self.origin_device_id@),
    {
        let t = now();
        let (id, created_at, revision) = match &existing {
            Some(e) => (e.id, e.created_at, e.revision + 1),
            None => (Uuid::new_v4(), t, 1i32),
        };
        let payload = vec![
            member("widgetType", JsonValue::Str(owned(widget_type))),
            member("posX", JsonValue::Int(pos_x as i64)),
            member("posY", JsonValue::Int(pos_y as i64)),
            member("width", JsonValue::Int(width as i64)),
            member("height", JsonValue::Int(height as i64)),
            member("configJson", JsonValue::Str(owned(config_json))),
        ];
        proof {
            assert(members(payload@) =~= widget_payload(widget_type@, pos_x, pos_y, width, height, config_json@));
        }
        let record = CoreRecord {
            id,
            kind: CoreRecordKind::WidgetInstance,
            title: owned(widget_type),
            summary: Some(owned("Dashboard widget instance")),
            status: owned("active"),
            payload_json: print_object(payload),
            source_record_id: None,
            sort_at: created_at,
            created_at,
            updated_at: t,
            deleted_at: None,
            revision,
            schema_version: 1,
            origin_device_id: self.origin_device_id.clone(),
            external_id: None,
        };
        // The widget defaults do not depend on the instant, so none is given.
        let record = RecordContract::with_merged_payload_at(record, "");
        let event_kind = if is_new {
            CoreEventKind::RecordCreated
        } else {
            CoreEventKind::WidgetLayoutChanged
        };
        let event_payload = vec![
            member("widgetType", JsonValue::Str(owned(widget_type))),
            member("posX", JsonValue::Int(pos_x as i64)),
            member("posY", JsonValue::Int(pos_y as i64)),
            member("width", JsonValue::Int(width as i64)),
            member("height", JsonValue::Int(height as i64)),
        ];
        proof {
            assert(members(event_payload@) =~= widget_event_payload(widget_type@, pos_x, pos_y, width, height));
        }
        self.write_record_change(record, event_kind, event_payload)
    }
}

/// The widget record of `id` if it can be laid out: present, a widget, and
/// active.
pub open spec fn layout_target(existing: Option<CoreRecord>) -> bool {
    existing matches Some(e) && e.kind == CoreRecordKind::WidgetInstance && e.status@ == "active"@
}

impl CommandService {
    /// Installs a catalog widget below the installed ones: refused when the
    /// widget allows one instance and one is installed; otherwise a new
    /// widget at column 0 of the first free row, with the entry's default
    /// width clamped to 1..=8 and default height at least 1, and
    /// configuration `{}`.
    pub fn install_widget(&self, entry: &WidgetCatalogEntry, existing: &[WidgetInstanceProjection]) -> (r: Result<RecordWrite, CommandError>)
        requires
            bottoms_fit(existing@),
        ensures
            match r {
                Err(CommandError::WidgetAlreadyInstalled(t)) => t@ == entry.widget_type@
                    && !entry.allow_multiple
                    && exists|i: int| 0 <= i < existing@.len() && existing@[i].widget_type@ == entry.widget_type@,
                Err(_) => false,
                Ok(w) => (entry.allow_multiple || forall|i: int| 0 <= i < existing@.len() ==> existing@[i].widget_type@ != entry.widget_type@)
                    && widget_record_of(w.record, None, entry.widget_type@, 0,
                        spec_next_available_row(existing@) as i32,
                        spec_clamp(match entry.default_size { Some(s) => s.width as int, None => 2 }, 1, COLUMN_COUNT as int) as i32,
                        (if match entry.default_size { Some(s) => s.height as int, None => 2 } > 1 {
                            match entry.default_size { Some(s) => s.height as int, None => 2 } } else { 1 }) as i32,
                        "{}"@, self.origin_device_id@)
                    && change_of(w.record, w.event, w.outbox, CoreEventKind::RecordCreated,
                        widget_event_payload(entry.widget_type@, 0, spec_next_available_row(existing@) as i32,
                        spec_clamp(match entry.default_size { Some(s) => s.width as int, None => 2 }, 1, COLUMN_COUNT as int) as i32,
                        (if match entry.default_size { Some(s) => s.height as int, None => 2 } > 1 {
                            match entry.default_size { Some(s) => s.height as int, None => 2 } } else { 1 }) as i32),
                        self.origin_device_id@),
            },
    {
        if !can_install(entry.widget_type.as_str(), entry.allow_multiple, existing) {
            return Err(CommandError::WidgetAlreadyInstalled(entry.widget_type.clone()));
        }
        let dw: i32 = entry.default_width();
        let width: i32 = if dw < 1 {
            1
        } else if dw > COLUMN_COUNT {
            COLUMN_COUNT
        } else {
            dw
        };
        let dh: i32 = entry.default_height();
        let height: i32 = if dh > 1 { dh } else { 1 };
        let pos_y: i32 = next_available_row(existing);
        Ok(self.create_widget_record(None, entry.widget_type.as_str(), 0, pos_y, width, height, "{}", true))
    }

    /// Moves or resizes a widget: refused unless `existing` is an active
    /// widget; otherwise its next revision at the clamped column and width,
    /// the row at least 0 and the height at least 1, keeping the type
    /// (`widgetType` of its payload, else its title) and configuration
    /// (`configJson`, else `{}`), written with a `widget_layout_changed`
    /// event.
    pub fn update_widget_layout(&self, existing: Option<CoreRecord>, layout: WidgetLayoutInput) -> (r: Result<RecordWrite, CommandError>)
        requires
            existing matches Some(e) ==> e.revision < i32::MAX,
        ensures
            match r {
                Err(CommandError::WidgetNotFound(id)) => id == layout.id && !layout_target(existing),
                Err(_) => false,
                Ok(w) => layout_target(existing) && {
                    let e = existing.unwrap();
                    let m = match json_parse(e.payload_json@) {
                        Some(d) => doc_members(d),
                        None => Seq::empty(),
                    };
                    let t = match as_str(lookup(m, "widgetType"@)) {
                        Some(s) => s,
                        None => e.title@,
                    };
                    let c = match as_str(lookup(m, "configJson"@)) {
                        Some(s) => s,
                        None => "{}"@,
                    };
                    let xw = spec_clamp_layout_to(layout.pos_x as int, layout.width as int, COLUMN_COUNT as int);
                    let y = if layout.pos_y > 0 { layout.pos_y } else { 0 };
                    let h = if layout.height > 1 { layout.height } else { 1 };
                    &&& widget_record_of(w.record, existing, t, xw.0 as i32, y, xw.1 as i32, h, c, self.origin_device_id@)
                    &&& change_of(w.record, w.event, w.outbox, CoreEventKind::WidgetLayoutChanged,
                        widget_event_payload(t, xw.0 as i32, y, xw.1 as i32, h), self.origin_device_id@)
                },
            },
    {
        let e = match &existing {
            Some(e) => e,
            None => return Err(CommandError::WidgetNotFound(layout.id)),
        };
        if e.kind != CoreRecordKind::WidgetInstance || !str_eq(e.status.as_str(), "active") {
            return Err(CommandError::WidgetNotFound(layout.id));
        }
        let (pos_x, width) = clamp_layout(layout.pos_x, layout.width);
        let height: i32 = if layout.height > 1 { layout.height } else { 1 };
        let pos_y: i32 = if layout.pos_y > 0 { layout.pos_y } else { 0 };
        let fields = match e.payload() {
            Some(d) => into_members(d),
            None => {
                let f: Vec<(String, JsonValue)> = Vec::new();
                assert(members(f@) =~= Seq::<(Seq<char>, JsonView)>::empty());
                f
            },
        };
        let widget_type = match get_str(&fields, "widgetType") {
            Some(s) => s,
            None => e.title.clone(),
        };
        let config_json = match get_str(&fields, "configJson") {
            Some(s) => s,
            None => owned("{}"),
        };
        Ok(self.create_widget_record(existing, widget_type.as_str(), pos_x, pos_y, width, height, config_json.as_str(), false))
    }

    /// Deletes a widget: refused unless `existing` is a widget; otherwise its
    /// next revision with status `deleted`, deleted and updated now, from this
    /// device, written with a `record_deleted` event whose payload names the
    /// kind.
    pub fn delete_widget(&self, existing: Option<CoreRecord>, id: Uuid) -> (r: Result<RecordWrite, CommandError>)
        requires
            existing matches Some(e) ==> e.revision < i32::MAX,
        ensures
            match r {
                Err(CommandError::WidgetNotFound(i)) => i == id
                    && !(existing matches Some(e) && e.kind == CoreRecordKind::WidgetInstance),
                Err(_) => false,
                Ok(w) => (existing matches Some(e) && e.kind == CoreRecordKind::WidgetInstance
                    && w.record == (CoreRecord {
                        status: w.record.status,
                        deleted_at: w.record.deleted_at,
                        updated_at: w.record.updated_at,
                        revision: w.record.revision,
                        origin_device_id: w.record.origin_device_id,
                        ..e
                    })
                    && w.record.status@ == "deleted"@
                    && (w.record.deleted_at matches Some(d) && d.in_range())
                    && w.record.updated_at.in_range()
                    && w.record.revision == e.revision + 1
                    && w.record.origin_device_id@ == self.origin_device_id@
                    && change_of(w.record, w.event, w.outbox, CoreEventKind::RecordDeleted,
                        seq![("kind"@, jstr(e.kind.wire()))], self.origin_device_id@)),
            },
    {
        let mut deleted = match existing {
            Some(e) => e,
            None => return Err(CommandError::WidgetNotFound(id)),
        };
        if deleted.kind != CoreRecordKind::WidgetInstance {
            return Err(CommandError::WidgetNotFound(id));
        }
        deleted.status = owned("deleted");
        deleted.deleted_at = Some(now());
        deleted.updated_at = now();
        deleted.revision = deleted.revision + 1;
        deleted.origin_device_id = self.origin_device_id.clone();
        let payload = vec![member("kind", JsonValue::Str(deleted.kind.to_wire_string()))];
        proof {
            assert(members(payload@) =~= seq![("kind"@, jstr(deleted.kind.wire()))]);
        }
        Ok(self.write_record_change(deleted, CoreEventKind::RecordDeleted, payload))
    }
}

} // verus!

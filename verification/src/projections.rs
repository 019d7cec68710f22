//! Read projections for the dashboard, computed from records: the task
//! queue, the timeline, and the installed widgets.

use crate::ids::Uuid;
use crate::json::{
    as_bool, as_i64, as_str, doc_members, get_bool, get_i64, get_str, into_members, json_parse,
    lookup, DocView, JsonView, Members,
};
use crate::kinds::CoreRecordKind;
use crate::models::CoreRecord;
use crate::sort::{sorted_by, stable_sort, views_of, SortKey};
use crate::text::{clone_opt, opt_view, owned, str_eq};
use crate::time::{parse_rfc3339, rfc3339_parse, Timestamp};
use vstd::prelude::*;

verus! {

/// Whether a task is still to do or done.
#[derive(Debug, Clone, Copy, PartialEq, Eq, Structural)]
pub enum TaskQueueStatus {
    Active,
    Completed,
}

/// A task as the task queue shows it.
#[derive(Debug, Clone)]
pub struct TaskQueueItem {
    pub record_id: Uuid,
    pub title: String,
    pub display_title: String,
    pub summary: Option<String>,
    pub created_at: Timestamp,
    pub due_at: Option<Timestamp>,
    pub status: TaskQueueStatus,
    pub is_overdue: bool,
}

/// The plain values of a `TaskQueueItem`.
pub struct TaskQueueItemView {
    pub record_id: Uuid,
    pub title: Seq<char>,
    pub display_title: Seq<char>,
    pub summary: Option<Seq<char>>,
    pub created_at: Timestamp,
    pub due_at: Option<Timestamp>,
    pub status: TaskQueueStatus,
    pub is_overdue: bool,
}

impl View for TaskQueueItem {
    type V = TaskQueueItemView;

    open spec fn view(&self) -> TaskQueueItemView {
        TaskQueueItemView {
            record_id: self.record_id,
            title: self.title@,
            display_title: self.display_title@,
            summary: opt_view(self.summary),
            created_at: self.created_at,
            due_at: self.due_at,
            status: self.status,
            is_overdue: self.is_overdue,
        }
    }
}

/// The instant a task sorts by: its due date, else its creation.
pub open spec fn task_sort_at(t: TaskQueueItemView) -> Timestamp {
    match t.due_at {
        Some(d) => d,
        None => t.created_at,
    }
}

impl SortKey for TaskQueueItem {
    /// Open tasks before done ones; within each, by due date (or creation)
    /// ascending.
    open spec fn key_le(a: TaskQueueItemView, b: TaskQueueItemView) -> bool {
        let ac = a.status == TaskQueueStatus::Completed;
        let bc = b.status == TaskQueueStatus::Completed;
        if ac && !bc {
            false
        } else if !ac && bc {
            true
        } else {
            !task_sort_at(b).earlier(task_sort_at(a))
        }
    }

    proof fn key_le_total(a: TaskQueueItemView, b: TaskQueueItemView) {
    }

    proof fn key_le_trans(a: TaskQueueItemView, b: TaskQueueItemView, c: TaskQueueItemView) {
    }

    fn le(&self, other: &Self) -> (r: bool) {
        let ac = self.status == TaskQueueStatus::Completed;
        let bc = other.status == TaskQueueStatus::Completed;
        if ac && !bc {
            false
        } else if !ac && bc {
            true
        } else {
            let a = match self.due_at {
                Some(d) => d,
                None => self.created_at,
            };
            let b = match other.due_at {
                Some(d) => d,
                None => other.created_at,
            };
            !b.is_before(&a)
        }
    }
}

/// The instant of an optional RFC 3339 text.
pub open spec fn parse_instant(s: Option<Seq<char>>) -> Option<Timestamp> {
    match s {
        Some(text) => match rfc3339_parse(text) {
            Some(p) => Some(Timestamp { secs: p.0, nanos: p.1 }),
            None => None,
        },
        None => None,
    }
}

/// Whether a task record is done: status `completed`, or payload member
/// `isCompleted` true.
pub open spec fn task_completed(rec: CoreRecord, m: Members) -> bool {
    rec.status@ == "completed"@ || as_bool(lookup(m, "isCompleted"@)) == Some(true)
}

/// The queue item of a task record at instant `now`: none when its payload is
/// not JSON, or when it is done and done tasks are not wanted.
pub open spec fn spec_task_item(rec: CoreRecord, include_completed: bool, now: Timestamp) -> Option<TaskQueueItemView> {
    match json_parse(rec.payload_json@) {
        None => None,
        Some(doc) => {
            let m = doc_members(doc);
            let completed = task_completed(rec, m);
            if !include_completed && completed {
                None
            } else {
                let due = parse_instant(as_str(lookup(m, "dueAt"@)));
                Some(TaskQueueItemView {
                    record_id: rec.id,
                    title: rec.title@,
                    display_title: match as_str(lookup(m, "displayTitle"@)) {
                        Some(s) => s,
                        None => rec.title@,
                    },
                    summary: opt_view(rec.summary),
                    created_at: rec.created_at,
                    due_at: due,
                    status: if completed { TaskQueueStatus::Completed } else { TaskQueueStatus::Active },
                    is_overdue: !completed && (due matches Some(d) && d.earlier(now)),
                })
            }
        },
    }
}

/// The queue items of the records, in their order.
pub open spec fn spec_task_items(recs: Seq<CoreRecord>, include_completed: bool, now: Timestamp) -> Seq<TaskQueueItemView>
    decreases recs.len(),
{
    if recs.len() == 0 {
        Seq::empty()
    } else {
        let rest = spec_task_items(recs.drop_last(), include_completed, now);
        match spec_task_item(recs.last(), include_completed, now) {
            Some(t) => rest.push(t),
            None => rest,
        }
    }
}

/// The queue item of one task record (see `spec_task_item`).
pub fn task_item(rec: &CoreRecord, include_completed: bool, now: Timestamp) -> (r: Option<TaskQueueItem>)
    ensures
        match r {
            Some(t) => spec_task_item(*rec, include_completed, now) == Some(t@),
            None => spec_task_item(*rec, include_completed, now) is None,
        },
{
    let doc = match rec.payload() {
        Some(d) => d,
        None => return None,
    };
    let fields = into_members(doc);
    let completed = str_eq(rec.status.as_str(), "completed") || get_bool(&fields, "isCompleted") == Some(true);
    if !include_completed && completed {
        return None;
    }
    let due_at = match get_str(&fields, "dueAt") {
        Some(s) => parse_rfc3339(s.as_str()),
        None => None,
    };
    let display_title = match get_str(&fields, "displayTitle") {
        Some(s) => s,
        None => rec.title.clone(),
    };
    let is_overdue = !completed && match due_at {
        Some(d) => d.is_before(&now),
        None => false,
    };
    Some(TaskQueueItem {
        record_id: rec.id,
        title: rec.title.clone(),
        display_title,
        summary: clone_opt(&rec.summary),
        created_at: rec.created_at,
        due_at,
        status: if completed { TaskQueueStatus::Completed } else { TaskQueueStatus::Active },
        is_overdue,
    })
}

/// The task queue at instant `now`, from the task records: one item per
/// record whose payload is JSON (done tasks only when `include_completed`),
/// open tasks first, each group by due date (or creation) ascending, ties in
/// record order.
pub fn task_queue_from(records: &Vec<CoreRecord>, include_completed: bool, now: Timestamp) -> (r: Vec<TaskQueueItem>)
    ensures
        views_of(r@) == sorted_by::<TaskQueueItem>(spec_task_items(records@, include_completed, now)),
{
    let mut items: Vec<TaskQueueItem> = Vec::new();
    let mut i: usize = 0;
    proof {
        assert(views_of(items@) =~= spec_task_items(records@.take(0), include_completed, now));
    }
    while i < records.len()
        invariant
            i <= records@.len(),
            views_of(items@) == spec_task_items(records@.take(i as int), include_completed, now),
        decreases records.len() - i,
    {
        proof {
            assert(records@.take(i + 1).drop_last() =~= records@.take(i as int));
            assert(records@.take(i + 1).last() == records@[i as int]);
        }
        match task_item(&records[i], include_completed, now) {
            Some(t) => {
                items.push(t);
                proof {
                    assert(views_of(items@) =~= spec_task_items(records@.take(i as int), include_completed, now).push(t@));
                }
            },
            None => {},
        }
        i = i + 1;
    }
    proof {
        assert(records@.take(records@.len() as int) =~= records@);
    }
    stable_sort(items)
}

/// The task queue holds every item once, open tasks before done ones, and
/// within each group by due date (or creation) ascending.
pub proof fn lemma_task_queue_order(recs: Seq<CoreRecord>, include_completed: bool, now: Timestamp)
    ensures
        ({
            let items = spec_task_items(recs, include_completed, now);
            let q = sorted_by::<TaskQueueItem>(items);
            &&& q.to_multiset() == items.to_multiset()
            &&& forall|i: int, j: int| 0 <= i < j < q.len() && q[i].status == TaskQueueStatus::Completed
                ==> q[j].status == TaskQueueStatus::Completed
            &&& forall|i: int, j: int| 0 <= i < j < q.len() && q[i].status == q[j].status
                ==> !task_sort_at(q[j]).earlier(task_sort_at(q[i]))
        }),
{
    let items = spec_task_items(recs, include_completed, now);
    let q = sorted_by::<TaskQueueItem>(items);
    crate::sort::lemma_sorted_by_sorts::<TaskQueueItem>(items);
    assert forall|i: int, j: int| 0 <= i < j < q.len() && q[i].status == TaskQueueStatus::Completed
        implies q[j].status == TaskQueueStatus::Completed by {
        assert(<TaskQueueItem as SortKey>::key_le(q[i], q[j]));
    }
    assert forall|i: int, j: int| 0 <= i < j < q.len() && q[i].status == q[j].status
        implies !task_sort_at(q[j]).earlier(task_sort_at(q[i])) by {
        assert(<TaskQueueItem as SortKey>::key_le(q[i], q[j]));
    }
}

/// Whether a record's payload is a JSON object whose member `key` is the
/// boolean `true`.
pub open spec fn payload_flag(rec: CoreRecord, key: Seq<char>) -> bool {
    json_parse(rec.payload_json@) matches Some(DocView::Object(m)) && lookup(m, key) == Some(JsonView::Bool(true))
}

/// A task's queue item is the record's own: its id and title; it is done
/// exactly when the record's status is `completed` or its payload's
/// `isCompleted` is `true`; and it is overdue exactly when it is still open
/// and has a due date before `now`, so a done task is never overdue. Without
/// `include_completed`, only open tasks are listed.
pub proof fn lemma_task_item_status(rec: CoreRecord, include_completed: bool, now: Timestamp)
    ensures
        spec_task_item(rec, include_completed, now) is Some <==> (json_parse(rec.payload_json@) is Some
            && (include_completed || !(rec.status@ == "completed"@ || payload_flag(rec, "isCompleted"@)))),
        spec_task_item(rec, include_completed, now) matches Some(t) ==> ({
            &&& t.record_id == rec.id
            &&& t.title == rec.title@
            &&& (t.status == TaskQueueStatus::Completed <==> (rec.status@ == "completed"@ || payload_flag(rec, "isCompleted"@)))
            &&& (t.is_overdue <==> (t.status == TaskQueueStatus::Active && (t.due_at matches Some(d) && d.earlier(now))))
            &&& (t.status == TaskQueueStatus::Completed ==> !t.is_overdue)
            &&& (!include_completed ==> t.status == TaskQueueStatus::Active)
        }),
{
}

/// The items of the records' queue each keep `lemma_task_item_status`'s
/// promises on status and overdue.
proof fn lemma_task_items_status(recs: Seq<CoreRecord>, include_completed: bool, now: Timestamp)
    ensures
        forall|i: int| 0 <= i < spec_task_items(recs, include_completed, now).len() ==> ({
            let t = #[trigger] spec_task_items(recs, include_completed, now)[i];
            &&& (t.is_overdue <==> (t.status == TaskQueueStatus::Active && (t.due_at matches Some(d) && d.earlier(now))))
            &&& (!include_completed ==> t.status == TaskQueueStatus::Active)
        }),
    decreases recs.len(),
{
    if recs.len() > 0 {
        lemma_task_items_status(recs.drop_last(), include_completed, now);
        lemma_task_item_status(recs.last(), include_completed, now);
    }
}

/// In the task queue a done task is never overdue: an item is overdue
/// exactly when it is open and due before `now`. Without
/// `include_completed`, every item is open.
pub proof fn lemma_task_queue_overdue(recs: Seq<CoreRecord>, include_completed: bool, now: Timestamp)
    ensures
        forall|i: int| 0 <= i < sorted_by::<TaskQueueItem>(spec_task_items(recs, include_completed, now)).len() ==> ({
            let t = #[trigger] sorted_by::<TaskQueueItem>(spec_task_items(recs, include_completed, now))[i];
            &&& (t.is_overdue <==> (t.status == TaskQueueStatus::Active && (t.due_at matches Some(d) && d.earlier(now))))
            &&& (t.status == TaskQueueStatus::Completed ==> !t.is_overdue)
            &&& (!include_completed ==> t.status == TaskQueueStatus::Active)
        }),
{
    let items = spec_task_items(recs, include_completed, now);
    let q = sorted_by::<TaskQueueItem>(items);
    crate::sort::lemma_sorted_by_sorts::<TaskQueueItem>(items);
    lemma_task_items_status(recs, include_completed, now);
    assert forall|i: int| 0 <= i < q.len() implies ({
        let t = #[trigger] q[i];
        &&& (t.is_overdue <==> (t.status == TaskQueueStatus::Active && (t.due_at matches Some(d) && d.earlier(now))))
        &&& (t.status == TaskQueueStatus::Completed ==> !t.is_overdue)
        &&& (!include_completed ==> t.status == TaskQueueStatus::Active)
    }) by {
        vstd::seq_lib::to_multiset_contains(q, q[i]);
        vstd::seq_lib::to_multiset_contains(items, q[i]);
        assert(q.contains(q[i]));
        let j = choose|j: int| 0 <= j < items.len() && items[j] == q[i];
        assert(items[j] == q[i]);
    }
}

/// What a timeline entry stands for.
#[derive(Debug, Clone, Copy, PartialEq, Eq, Structural)]
pub enum TimelineEntryType {
    Task,
    Alert,
    Note,
    Milestone,
    Achievement,
}

/// An entry of the timeline.
#[derive(Debug, Clone)]
pub struct TimelineEntry {
    pub id: Uuid,
    pub entry_type: TimelineEntryType,
    pub title: String,
    pub subtitle: Option<String>,
    pub date: Timestamp,
    pub is_completed: bool,
    pub is_critical: bool,
}

/// The plain values of a `TimelineEntry`.
pub struct TimelineEntryView {
    pub id: Uuid,
    pub entry_type: TimelineEntryType,
    pub title: Seq<char>,
    pub subtitle: Option<Seq<char>>,
    pub date: Timestamp,
    pub is_completed: bool,
    pub is_critical: bool,
}

impl View for TimelineEntry {
    type V = TimelineEntryView;

    open spec fn view(&self) -> TimelineEntryView {
        TimelineEntryView {
            id: self.id,
            entry_type: self.entry_type,
            title: self.title@,
            subtitle: opt_view(self.subtitle),
            date: self.date,
            is_completed: self.is_completed,
            is_critical: self.is_critical,
        }
    }
}

impl SortKey for TimelineEntry {
    /// By date ascending.
    open spec fn key_le(a: TimelineEntryView, b: TimelineEntryView) -> bool {
        !b.date.earlier(a.date)
    }

    proof fn key_le_total(a: TimelineEntryView, b: TimelineEntryView) {
    }

    proof fn key_le_trans(a: TimelineEntryView, b: TimelineEntryView, c: TimelineEntryView) {
    }

    fn le(&self, other: &Self) -> (r: bool) {
        !other.date.is_before(&self.date)
    }
}

/// The members of a record's payload; none where it is not a JSON object.
pub open spec fn payload_members(rec: CoreRecord) -> Members {
    match json_parse(rec.payload_json@) {
        Some(doc) => doc_members(doc),
        None => Seq::empty(),
    }
}

/// Payload member `isCritical`, false where it is not a boolean.
pub open spec fn critical_flag(m: Members) -> bool {
    as_bool(lookup(m, "isCritical"@)) == Some(true)
}

/// The entry type named by a timeline item's `timelineType`.
pub open spec fn spec_timeline_type(t: Seq<char>) -> TimelineEntryType {
    if t == "milestone"@ {
        TimelineEntryType::Milestone
    } else if t == "achievement"@ {
        TimelineEntryType::Achievement
    } else {
        TimelineEntryType::Note
    }
}

/// The timeline entry of a record: tasks, critical signals and timeline items
/// have one; other kinds none.
pub open spec fn spec_timeline_entry(rec: CoreRecord) -> Option<TimelineEntryView> {
    let m = payload_members(rec);
    match rec.kind {
        CoreRecordKind::Task => Some(TimelineEntryView {
            id: rec.id,
            entry_type: TimelineEntryType::Task,
            title: rec.title@,
            subtitle: opt_view(rec.summary),
            date: rec.sort_at,
            is_completed: rec.status@ == "completed"@,
            is_critical: critical_flag(m),
        }),
        CoreRecordKind::CriticalSignal => Some(TimelineEntryView {
            id: rec.id,
            entry_type: TimelineEntryType::Alert,
            title: rec.title@,
            subtitle: opt_view(rec.summary),
            date: rec.sort_at,
            is_completed: rec.status@ == "dismissed"@,
            is_critical: true,
        }),
        CoreRecordKind::TimelineItem => Some(TimelineEntryView {
            id: rec.id,
            entry_type: spec_timeline_type(match as_str(lookup(m, "timelineType"@)) {
                Some(s) => s,
                None => "note"@,
            }),
            title: rec.title@,
            subtitle: opt_view(rec.summary),
            date: rec.sort_at,
            is_completed: rec.status@ == "completed"@,
            is_critical: critical_flag(m),
        }),
        _ => None,
    }
}

/// The timeline entries of the records, in their order.
pub open spec fn spec_timeline_entries(recs: Seq<CoreRecord>) -> Seq<TimelineEntryView>
    decreases recs.len(),
{
    if recs.len() == 0 {
        Seq::empty()
    } else {
        let rest = spec_timeline_entries(recs.drop_last());
        match spec_timeline_entry(recs.last()) {
            Some(t) => rest.push(t),
            None => rest,
        }
    }
}

/// The timeline holds every entry once, by date ascending.
pub proof fn lemma_timeline_order(recs: Seq<CoreRecord>)
    ensures
        ({
            let entries = spec_timeline_entries(recs);
            let t = sorted_by::<TimelineEntry>(entries);
            &&& t.to_multiset() == entries.to_multiset()
            &&& forall|i: int, j: int| 0 <= i < j < t.len() ==> !t[j].date.earlier(t[i].date)
        }),
{
    let entries = spec_timeline_entries(recs);
    let t = sorted_by::<TimelineEntry>(entries);
    crate::sort::lemma_sorted_by_sorts::<TimelineEntry>(entries);
    assert forall|i: int, j: int| 0 <= i < j < t.len() implies !t[j].date.earlier(t[i].date) by {
        assert(<TimelineEntry as SortKey>::key_le(t[i], t[j]));
    }
}

/// A record's timeline entry carries the record's id, title and sort date.
/// Tasks and timeline items are critical exactly when their payload's
/// `isCritical` is `true`, and completed when their status is `completed`;
/// a critical signal is always critical, and completed when dismissed. A
/// timeline item is a milestone or an achievement when its `timelineType`
/// says so, else a note. Records of other kinds have no entry.
pub proof fn lemma_timeline_entry_fields(rec: CoreRecord)
    ensures
        spec_timeline_entry(rec) is Some <==> (rec.kind == CoreRecordKind::Task
            || rec.kind == CoreRecordKind::CriticalSignal || rec.kind == CoreRecordKind::TimelineItem),
        spec_timeline_entry(rec) matches Some(e) ==> ({
            &&& e.id == rec.id
            &&& e.title == rec.title@
            &&& e.date == rec.sort_at
            &&& (rec.kind == CoreRecordKind::CriticalSignal ==> e.entry_type == TimelineEntryType::Alert
                && e.is_critical && (e.is_completed <==> rec.status@ == "dismissed"@))
            &&& (rec.kind != CoreRecordKind::CriticalSignal ==> (e.is_critical <==> payload_flag(rec, "isCritical"@))
                && (e.is_completed <==> rec.status@ == "completed"@))
            &&& (rec.kind == CoreRecordKind::Task ==> e.entry_type == TimelineEntryType::Task)
            &&& (rec.kind == CoreRecordKind::TimelineItem ==> {
                &&& (e.entry_type == TimelineEntryType::Milestone <==> (json_parse(rec.payload_json@) matches Some(DocView::Object(m))
                    && lookup(m, "timelineType"@) == Some(JsonView::Str("milestone"@))))
                &&& (e.entry_type == TimelineEntryType::Achievement <==> (json_parse(rec.payload_json@) matches Some(DocView::Object(m))
                    && lookup(m, "timelineType"@) == Some(JsonView::Str("achievement"@))))
            })
        }),
{
    reveal_strlit("note");
    reveal_strlit("milestone");
    reveal_strlit("achievement");
    assert("note"@.len() == 4 && "milestone"@.len() == 9 && "achievement"@.len() == 11);
}

/// The members of a record's payload; none where it is not a JSON object.
fn record_members(rec: &CoreRecord) -> (r: Vec<(String, crate::json::JsonValue)>)
    ensures
        crate::json::members(r@) == payload_members(*rec),
{
    match rec.payload() {
        Some(doc) => into_members(doc),
        None => {
            let r: Vec<(String, crate::json::JsonValue)> = Vec::new();
            assert(crate::json::members(r@) =~= Seq::<(Seq<char>, crate::json::JsonView)>::empty());
            r
        },
    }
}

/// The timeline entry of one record (see `spec_timeline_entry`).
pub fn timeline_entry(rec: &CoreRecord) -> (r: Option<TimelineEntry>)
    ensures
        match r {
            Some(t) => spec_timeline_entry(*rec) == Some(t@),
            None => spec_timeline_entry(*rec) is None,
        },
{
    let fields = record_members(rec);
    match rec.kind {
        CoreRecordKind::Task => Some(TimelineEntry {
            id: rec.id,
            entry_type: TimelineEntryType::Task,
            title: rec.title.clone(),
            subtitle: clone_opt(&rec.summary),
            date: rec.sort_at,
            is_completed: str_eq(rec.status.as_str(), "completed"),
            is_critical: get_bool(&fields, "isCritical") == Some(true),
        }),
        CoreRecordKind::CriticalSignal => Some(TimelineEntry {
            id: rec.id,
            entry_type: TimelineEntryType::Alert,
            title: rec.title.clone(),
            subtitle: clone_opt(&rec.summary),
            date: rec.sort_at,
            is_completed: str_eq(rec.status.as_str(), "dismissed"),
            is_critical: true,
        }),
        CoreRecordKind::TimelineItem => {
            let timeline_type = match get_str(&fields, "timelineType") {
                Some(s) => s,
                None => owned("note"),
            };
            let entry_type = if str_eq(timeline_type.as_str(), "milestone") {
                TimelineEntryType::Milestone
            } else if str_eq(timeline_type.as_str(), "achievement") {
                TimelineEntryType::Achievement
            } else {
                TimelineEntryType::Note
            };
            Some(TimelineEntry {
                id: rec.id,
                entry_type,
                title: rec.title.clone(),
                subtitle: clone_opt(&rec.summary),
                date: rec.sort_at,
                is_completed: str_eq(rec.status.as_str(), "completed"),
                is_critical: get_bool(&fields, "isCritical") == Some(true),
            })
        },
        _ => None,
    }
}

/// The timeline from the records: one entry per task, critical signal and
/// timeline item, by date ascending, ties in record order.
pub fn timeline_entries_from(records: &Vec<CoreRecord>) -> (r: Vec<TimelineEntry>)
    ensures
        views_of(r@) == sorted_by::<TimelineEntry>(spec_timeline_entries(records@)),
{
    let mut entries: Vec<TimelineEntry> = Vec::new();
    let mut i: usize = 0;
    proof {
        assert(views_of(entries@) =~= spec_timeline_entries(records@.take(0)));
    }
    while i < records.len()
        invariant
            i <= records@.len(),
            views_of(entries@) == spec_timeline_entries(records@.take(i as int)),
        decreases records.len() - i,
    {
        proof {
            assert(records@.take(i + 1).drop_last() =~= records@.take(i as int));
            assert(records@.take(i + 1).last() == records@[i as int]);
        }
        match timeline_entry(&records[i]) {
            Some(t) => {
                entries.push(t);
                proof {
                    assert(views_of(entries@) =~= spec_timeline_entries(records@.take(i as int)).push(t@));
                }
            },
            None => {},
        }
        i = i + 1;
    }
    proof {
        assert(records@.take(records@.len() as int) =~= records@);
    }
    stable_sort(entries)
}

/// An installed widget as the grid shows it.
#[derive(Debug, Clone)]
pub struct WidgetInstanceProjection {
    pub id: Uuid,
    pub widget_type: String,
    pub pos_x: i32,
    pub pos_y: i32,
    pub width: i32,
    pub height: i32,
    pub config_json: String,
}

/// The plain values of a `WidgetInstanceProjection`.
pub struct WidgetView {
    pub id: Uuid,
    pub widget_type: Seq<char>,
    pub pos_x: i32,
    pub pos_y: i32,
    pub width: i32,
    pub height: i32,
    pub config_json: Seq<char>,
}

impl View for WidgetInstanceProjection {
    type V = WidgetView;

    open spec fn view(&self) -> WidgetView {
        WidgetView {
            id: self.id,
            widget_type: self.widget_type@,
            pos_x: self.pos_x,
            pos_y: self.pos_y,
            width: self.width,
            height: self.height,
            config_json: self.config_json@,
        }
    }
}

/// An integer payload member taken to `i32` as `as` does, or `default`.
pub open spec fn int_member(m: Members, key: Seq<char>, default: i64) -> i32 {
    (match as_i64(lookup(m, key)) {
        Some(v) => v,
        None => default,
    }) as i32
}

/// The grid widget of a record: only active records whose payload is JSON
/// have one. Its type comes from `widgetType` (else the title), its place and
/// size from `posX`, `posY` (default 0), `width`, `height` (default 2), and
/// its configuration from `configJson` (default `{}`).
pub open spec fn spec_widget_instance(rec: CoreRecord) -> Option<WidgetView> {
    if rec.status@ != "active"@ {
        None
    } else {
        match json_parse(rec.payload_json@) {
            None => None,
            Some(doc) => {
                let m = doc_members(doc);
                Some(WidgetView {
                    id: rec.id,
                    widget_type: match as_str(lookup(m, "widgetType"@)) {
                        Some(s) => s,
                        None => rec.title@,
                    },
                    pos_x: int_member(m, "posX"@, 0),
                    pos_y: int_member(m, "posY"@, 0),
                    width: int_member(m, "width"@, 2),
                    height: int_member(m, "height"@, 2),
                    config_json: match as_str(lookup(m, "configJson"@)) {
                        Some(s) => s,
                        None => "{}"@,
                    },
                })
            },
        }
    }
}

/// The grid widgets of the records, in their order.
pub open spec fn spec_widget_instances(recs: Seq<CoreRecord>) -> Seq<WidgetView>
    decreases recs.len(),
{
    if recs.len() == 0 {
        Seq::empty()
    } else {
        let rest = spec_widget_instances(recs.drop_last());
        match spec_widget_instance(recs.last()) {
            Some(w) => rest.push(w),
            None => rest,
        }
    }
}

/// Whether a record shows as a grid widget: it is active and its payload is
/// JSON.
pub open spec fn shows_as_widget(rec: CoreRecord) -> bool {
    rec.status@ == "active"@ && json_parse(rec.payload_json@) is Some
}

/// A record's grid widget is the record's own: it has one exactly when the
/// record is active and its payload is JSON, and the widget's id is the
/// record's id, so layout updates and deletes reach that record. A payload
/// without an integer `posX`, `posY`, `width` or `height` places the widget
/// at 0 and sizes it 2, one without a string `widgetType` takes the title,
/// and one without a string `configJson` configures it with `{}`.
pub proof fn lemma_widget_instance_id(rec: CoreRecord)
    ensures
        spec_widget_instance(rec) is Some <==> shows_as_widget(rec),
        spec_widget_instance(rec) matches Some(w) ==> w.id == rec.id,
        spec_widget_instance(rec) matches Some(w) ==> ({
            let m = payload_members(rec);
            &&& (!(lookup(m, "posX"@) matches Some(JsonView::Int(_))) ==> w.pos_x == 0)
            &&& (!(lookup(m, "posY"@) matches Some(JsonView::Int(_))) ==> w.pos_y == 0)
            &&& (!(lookup(m, "width"@) matches Some(JsonView::Int(_))) ==> w.width == 2)
            &&& (!(lookup(m, "height"@) matches Some(JsonView::Int(_))) ==> w.height == 2)
            &&& (!(lookup(m, "widgetType"@) matches Some(JsonView::Str(_))) ==> w.widget_type == rec.title@)
            &&& (!(lookup(m, "configJson"@) matches Some(JsonView::Str(_))) ==> w.config_json == "{}"@)
            &&& (lookup(m, "widgetType"@) matches Some(JsonView::Str(t)) ==> w.widget_type == t)
        }),
{
}

/// The ids of the installed widgets are those of the records that show as
/// widgets, in record order.
pub proof fn lemma_widget_instance_ids(recs: Seq<CoreRecord>)
    ensures
        spec_widget_instances(recs).map_values(|w: WidgetView| w.id)
            == recs.filter(|r: CoreRecord| shows_as_widget(r)).map_values(|r: CoreRecord| r.id),
    decreases recs.len(),
{
    reveal(Seq::filter);
    if recs.len() > 0 {
        let pred = |r: CoreRecord| shows_as_widget(r);
        lemma_widget_instance_ids(recs.drop_last());
        lemma_widget_instance_id(recs.last());
        let rest = spec_widget_instances(recs.drop_last());
        let kept = recs.drop_last().filter(pred);
        assert(recs.filter(pred) == if pred(recs.last()) { kept.push(recs.last()) } else { kept });
        if pred(recs.last()) {
            let w = spec_widget_instance(recs.last())->0;
            assert(rest.push(w).map_values(|w: WidgetView| w.id) =~= rest.map_values(|w: WidgetView| w.id).push(w.id));
            assert(kept.push(recs.last()).map_values(|r: CoreRecord| r.id)
                =~= kept.map_values(|r: CoreRecord| r.id).push(recs.last().id));
        }
    } else {
        assert(spec_widget_instances(recs).map_values(|w: WidgetView| w.id)
            =~= recs.filter(|r: CoreRecord| shows_as_widget(r)).map_values(|r: CoreRecord| r.id));
    }
}

/// The grid widget of one record (see `spec_widget_instance`).
pub fn widget_instance(rec: &CoreRecord) -> (r: Option<WidgetInstanceProjection>)
    ensures
        match r {
            Some(w) => spec_widget_instance(*rec) == Some(w@),
            None => spec_widget_instance(*rec) is None,
        },
{
    if !str_eq(rec.status.as_str(), "active") {
        return None;
    }
    let doc = match rec.payload() {
        Some(d) => d,
        None => return None,
    };
    let fields = into_members(doc);
    let pos_x = match get_i64(&fields, "posX") {
        Some(v) => v,
        None => 0,
    };
    let pos_y = match get_i64(&fields, "posY") {
        Some(v) => v,
        None => 0,
    };
    let width = match get_i64(&fields, "width") {
        Some(v) => v,
        None => 2,
    };
    let height = match get_i64(&fields, "height") {
        Some(v) => v,
        None => 2,
    };
    Some(WidgetInstanceProjection {
        id: rec.id,
        widget_type: match get_str(&fields, "widgetType") {
            Some(s) => s,
            None => rec.title.clone(),
        },
        pos_x: pos_x as i32,
        pos_y: pos_y as i32,
        width: width as i32,
        height: height as i32,
        config_json: match get_str(&fields, "configJson") {
            Some(s) => s,
            None => owned("{}"),
        },
    })
}

/// The installed widgets from the widget records, in record order.
pub fn widget_instances_from(records: &Vec<CoreRecord>) -> (r: Vec<WidgetInstanceProjection>)
    ensures
        views_of(r@) == spec_widget_instances(records@),
{
    let mut out: Vec<WidgetInstanceProjection> = Vec::new();
    let mut i: usize = 0;
    proof {
        assert(views_of(out@) =~= spec_widget_instances(records@.take(0)));
    }
    while i < records.len()
        invariant
            i <= records@.len(),
            views_of(out@) == spec_widget_instances(records@.take(i as int)),
        decreases records.len() - i,
    {
        proof {
            assert(records@.take(i + 1).drop_last() =~= records@.take(i as int));
            assert(records@.take(i + 1).last() == records@[i as int]);
        }
        match widget_instance(&records[i]) {
            Some(w) => {
                out.push(w);
                proof {
                    assert(views_of(out@) =~= spec_widget_instances(records@.take(i as int)).push(w@));
                }
            },
            None => {},
        }
        i = i + 1;
    }
    proof {
        assert(records@.take(records@.len() as int) =~= records@);
    }
    out
}

} // verus!

use brian_desktop::ids::Uuid;
use brian_desktop::kinds::CoreRecordKind;
use brian_desktop::models::CoreRecord;
use brian_desktop::projections::{
    task_queue_from, timeline_entries_from, widget_instances_from, TaskQueueStatus, TimelineEntryType,
};
use brian_desktop::time::{parse_rfc3339, Timestamp};

fn at(s: &str) -> Timestamp {
    parse_rfc3339(s).unwrap()
}

fn rec(id: u128, kind: CoreRecordKind, title: &str, status: &str, payload: &str, created: &str) -> CoreRecord {
    let mut r = CoreRecord::new_at(Uuid { value: id }, kind, title.to_string(), at(created));
    r.status = status.to_string();
    r.payload_json = payload.to_string();
    r
}

#[test]
fn task_queue_orders_open_tasks_by_due_date() {
    let now = at("2024-05-10T00:00:00Z");
    let records = vec![
        rec(1, CoreRecordKind::Task, "late", "active", "{\"dueAt\":\"2024-05-01T00:00:00Z\"}", "2024-04-01T00:00:00Z"),
        rec(2, CoreRecordKind::Task, "done", "completed", "{}", "2024-01-01T00:00:00Z"),
        rec(3, CoreRecordKind::Task, "soon", "active", "{\"dueAt\":\"2024-06-01T00:00:00Z\",\"displayTitle\":\"Soon!\"}", "2024-04-02T00:00:00Z"),
        rec(4, CoreRecordKind::Task, "undated", "active", "{}", "2024-03-01T00:00:00Z"),
        rec(5, CoreRecordKind::Task, "flagged", "active", "{\"isCompleted\":true}", "2023-01-01T00:00:00Z"),
        rec(6, CoreRecordKind::Task, "broken", "active", "not json", "2020-01-01T00:00:00Z"),
    ];
    let open = task_queue_from(&records, false, now);
    let titles: Vec<&str> = open.iter().map(|t| t.title.as_str()).collect();
    assert_eq!(titles, vec!["undated", "late", "soon"]);
    assert!(open[1].is_overdue);
    assert!(!open[2].is_overdue);
    assert_eq!(open[2].display_title, "Soon!");
    assert_eq!(open[0].display_title, "undated");
    assert_eq!(open[0].due_at, None);

    let all = task_queue_from(&records, true, now);
    let titles: Vec<&str> = all.iter().map(|t| t.title.as_str()).collect();
    assert_eq!(titles, vec!["undated", "late", "soon", "flagged", "done"]);
    assert_eq!(all[3].status, TaskQueueStatus::Completed);
    assert!(!all[4].is_overdue);
}

#[test]
fn task_queue_keeps_record_order_on_ties() {
    let now = at("2024-05-10T00:00:00Z");
    let records = vec![
        rec(1, CoreRecordKind::Task, "b", "active", "{}", "2024-04-01T00:00:00Z"),
        rec(2, CoreRecordKind::Task, "a", "active", "{}", "2024-04-01T00:00:00Z"),
    ];
    let q = task_queue_from(&records, false, now);
    assert_eq!(q[0].title, "b");
    assert_eq!(q[1].title, "a");
}

#[test]
fn timeline_maps_kinds_and_sorts_by_date() {
    let mut signal = rec(2, CoreRecordKind::CriticalSignal, "alarm", "dismissed", "{}", "2024-02-01T00:00:00Z");
    signal.summary = Some("low disk".to_string());
    let records = vec![
        rec(1, CoreRecordKind::Task, "task", "completed", "{\"isCritical\":true}", "2024-03-01T00:00:00Z"),
        signal,
        rec(3, CoreRecordKind::TimelineItem, "ms", "active", "{\"timelineType\":\"milestone\"}", "2024-01-01T00:00:00Z"),
        rec(4, CoreRecordKind::TimelineItem, "other", "active", "{\"timelineType\":\"party\"}", "2024-04-01T00:00:00Z"),
        rec(5, CoreRecordKind::TimelineItem, "ach", "completed", "{\"timelineType\":\"achievement\"}", "2024-05-01T00:00:00Z"),
        rec(6, CoreRecordKind::Email, "mail", "active", "{}", "2023-01-01T00:00:00Z"),
        rec(7, CoreRecordKind::TimelineItem, "plain", "active", "bad", "2024-06-01T00:00:00Z"),
    ];
    let t = timeline_entries_from(&records);
    let titles: Vec<&str> = t.iter().map(|e| e.title.as_str()).collect();
    assert_eq!(titles, vec!["ms", "alarm", "task", "other", "ach", "plain"]);
    assert_eq!(t[0].entry_type, TimelineEntryType::Milestone);
    assert_eq!(t[1].entry_type, TimelineEntryType::Alert);
    assert!(t[1].is_completed && t[1].is_critical);
    assert_eq!(t[1].subtitle.as_deref(), Some("low disk"));
    assert!(t[2].is_completed && t[2].is_critical);
    assert_eq!(t[3].entry_type, TimelineEntryType::Note);
    assert_eq!(t[4].entry_type, TimelineEntryType::Achievement);
    assert_eq!(t[5].entry_type, TimelineEntryType::Note);
}

#[test]
fn widget_instances_read_payload_with_defaults() {
    let records = vec![
        rec(1, CoreRecordKind::WidgetInstance, "clock_widget", "active", "{\"posX\":3,\"posY\":4,\"width\":5,\"height\":6,\"configJson\":\"{\\\"tz\\\":1}\"}", "2024-01-01T00:00:00Z"),
        rec(2, CoreRecordKind::WidgetInstance, "fallback", "active", "{\"widgetType\":7}", "2024-01-01T00:00:00Z"),
        rec(3, CoreRecordKind::WidgetInstance, "gone", "deleted", "{}", "2024-01-01T00:00:00Z"),
        rec(4, CoreRecordKind::WidgetInstance, "broken", "active", "{", "2024-01-01T00:00:00Z"),
        rec(5, CoreRecordKind::WidgetInstance, "big", "active", "{\"posX\":4294967297}", "2024-01-01T00:00:00Z"),
    ];
    let w = widget_instances_from(&records);
    assert_eq!(w.len(), 3);
    assert_eq!(w[0].widget_type, "clock_widget");
    assert_eq!((w[0].pos_x, w[0].pos_y, w[0].width, w[0].height), (3, 4, 5, 6));
    assert_eq!(w[0].config_json, "{\"tz\":1}");
    assert_eq!(w[1].widget_type, "fallback");
    assert_eq!((w[1].pos_x, w[1].pos_y, w[1].width, w[1].height), (0, 0, 2, 2));
    assert_eq!(w[1].config_json, "{}");
    assert_eq!(w[2].pos_x, 1);
}

use brian_desktop::commands::{CommandError, CommandService, WidgetLayoutInput};
use brian_desktop::ids::Uuid;
use brian_desktop::json::{get_i64, get_str, parse_object};
use brian_desktop::kinds::{CoreEventKind, CoreRecordKind, SyncOutboxStatus};
use brian_desktop::models::CoreRecord;
use brian_desktop::projections::WidgetInstanceProjection;
use brian_desktop::store::prepare_record_for_store;
use brian_desktop::time::parse_rfc3339;
use brian_desktop::widget_catalog::{WidgetCatalogEntry, WidgetSize};

fn clock_entry() -> WidgetCatalogEntry {
    WidgetCatalogEntry {
        widget_type: "clock_widget".to_string(),
        display_name: "Clock".to_string(),
        category: None,
        surface_kind: None,
        allow_multiple: true,
        default_size: Some(WidgetSize { width: 3, height: 2 }),
    }
}

#[test]
fn create_task_enqueues_outbox() {
    let svc = CommandService::new("test-device".to_string());
    let write = svc.create_task("Ship desktop".to_string(), None);
    assert_eq!(write.outbox.status, SyncOutboxStatus::Pending);
    assert_eq!(write.outbox.event_id, write.event.id);
    assert_eq!(write.record.title, "Ship desktop");
    let stored = prepare_record_for_store(write.record.clone()).expect("task is valid");
    assert_eq!(stored.record.title, "Ship desktop");
}

#[test]
fn create_task_payload_and_event() {
    let svc = CommandService::new("dev-1".to_string());
    let due = parse_rfc3339("2030-01-01T00:00:00Z").unwrap();
    let write = svc.create_task("Pay rent".to_string(), Some(due));
    let p = parse_object(&write.record.payload_json).unwrap();
    assert_eq!(get_str(&p, "dueAt"), Some("2030-01-01T00:00:00+00:00".to_string()));
    assert_eq!(get_str(&p, "displayTitle"), Some("Pay rent".to_string()));
    assert_eq!(get_str(&p, "sourceCaptureId"), Some(String::new()));
    assert_eq!(write.record.origin_device_id, "dev-1");
    assert_eq!(write.record.kind, CoreRecordKind::Task);
    assert_eq!(write.event.kind, CoreEventKind::RecordCreated);
    assert_eq!(write.event.record_id, write.record.id);
    assert_eq!(write.event.base_revision, 1);
    assert_eq!(write.event.payload_json, "{}");
    assert_eq!(write.event.origin_device_id, "dev-1");
}

#[test]
fn install_widget_writes_widget_instance() {
    let svc = CommandService::new("test-device".to_string());
    let write = svc.install_widget(&clock_entry(), &[]).unwrap();
    assert_eq!(write.record.kind, CoreRecordKind::WidgetInstance);
    let payload = parse_object(&write.record.payload_json).unwrap();
    assert_eq!(get_str(&payload, "widgetType"), Some("clock_widget".to_string()));
}

#[test]
fn install_widget_places_below_and_clamps() {
    let svc = CommandService::new("d".to_string());
    let mut entry = clock_entry();
    entry.default_size = Some(WidgetSize { width: 12, height: 0 });
    let existing = vec![WidgetInstanceProjection {
        id: Uuid { value: 1 },
        widget_type: "task_queue".to_string(),
        pos_x: 0,
        pos_y: 2,
        width: 2,
        height: 5,
        config_json: "{}".to_string(),
    }];
    let write = svc.install_widget(&entry, &existing).unwrap();
    let p = parse_object(&write.record.payload_json).unwrap();
    assert_eq!(get_i64(&p, "posY"), Some(7));
    assert_eq!(get_i64(&p, "width"), Some(8));
    assert_eq!(get_i64(&p, "height"), Some(1));
    assert_eq!(write.record.revision, 1);
    assert_eq!(write.record.summary.as_deref(), Some("Dashboard widget instance"));
    let mut single = clock_entry();
    single.widget_type = "task_queue".to_string();
    single.allow_multiple = false;
    match svc.install_widget(&single, &existing) {
        Err(CommandError::WidgetAlreadyInstalled(t)) => assert_eq!(t, "task_queue"),
        other => panic!("unexpected {other:?}"),
    }
}

#[test]
fn update_widget_layout_clamps_and_bumps_revision() {
    let svc = CommandService::new("d".to_string());
    let first = svc.install_widget(&clock_entry(), &[]).unwrap().record;
    let layout = WidgetLayoutInput { id: first.id, pos_x: 7, pos_y: -2, width: 3, height: 0 };
    let write = svc.update_widget_layout(Some(first.clone()), layout).unwrap();
    assert_eq!(write.record.id, first.id);
    assert_eq!(write.record.revision, 2);
    assert_eq!(write.record.created_at, first.created_at);
    assert_eq!(write.event.kind, CoreEventKind::WidgetLayoutChanged);
    let p = parse_object(&write.record.payload_json).unwrap();
    assert_eq!(get_i64(&p, "posX"), Some(5));
    assert_eq!(get_i64(&p, "posY"), Some(0));
    assert_eq!(get_i64(&p, "height"), Some(1));
    assert_eq!(get_str(&p, "widgetType"), Some("clock_widget".to_string()));
    let e = parse_object(&write.event.payload_json).unwrap();
    assert_eq!(get_i64(&e, "width"), Some(3));
    assert!(matches!(svc.update_widget_layout(None, layout), Err(CommandError::WidgetNotFound(i)) if i == first.id));
    let task = CoreRecord::new(CoreRecordKind::Task, "t".to_string());
    assert!(matches!(svc.update_widget_layout(Some(task), layout), Err(CommandError::WidgetNotFound(_))));
}

#[test]
fn delete_widget_marks_deleted() {
    let svc = CommandService::new("d2".to_string());
    let first = svc.install_widget(&clock_entry(), &[]).unwrap().record;
    let write = svc.delete_widget(Some(first.clone()), first.id).unwrap();
    assert_eq!(write.record.status, "deleted");
    assert!(write.record.deleted_at.is_some());
    assert_eq!(write.record.revision, 2);
    assert_eq!(write.event.kind, CoreEventKind::RecordDeleted);
    assert_eq!(write.event.payload_json, "{\"kind\":\"widget_instance\"}");
    let id = Uuid { value: 99 };
    assert!(matches!(svc.delete_widget(None, id), Err(CommandError::WidgetNotFound(i)) if i == id));
    let mut done = first.clone();
    done.status = "deleted".to_string();
    assert!(svc.delete_widget(Some(done), first.id).is_ok());
}

#[test]
fn command_error_messages() {
    assert_eq!(CommandError::Repository("disk".to_string()).message(), "repository: disk");
    assert_eq!(CommandError::WidgetAlreadyInstalled("task_queue".to_string()).message(), "widget already installed: task_queue");
    assert_eq!(
        CommandError::WidgetNotFound(Uuid { value: 255 }).message(),
        "widget not found: 00000000-0000-0000-0000-0000000000ff"
    );
}

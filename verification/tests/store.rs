use brian_desktop::contract::ContractError;
use brian_desktop::ids::Uuid;
use brian_desktop::kinds::{CoreEventKind, CoreLinkKind, CoreRecordKind, SyncOutboxStatus};
use brian_desktop::local_prefs::LocalPrefKey;
use brian_desktop::models::{CoreEvent, CoreLink, CoreRecord, SyncOutboxItem};
use brian_desktop::store::{
    event_columns, event_from_columns, link_columns, link_from_columns, outbox_columns, record_columns, migration_for, optional_dt, optional_uuid, outbox_from_columns,
    outbox_items_query, parse_dt, parse_uuid, prepare_record_for_store_at, record_from_columns,
    records_by_kinds_query, EventColumns, LinkColumns, MigrationStep, OutboxColumns, RecordColumns, RowError,
    DEFAULT_DB_FILENAME, SCHEMA_VERSION,
};
use brian_desktop::text::{i64_text, u64_text};
use brian_desktop::time::parse_rfc3339;

const ID: &str = "00000000-0000-0000-0000-000000000007";

fn columns(kind: &str) -> RecordColumns {
    RecordColumns {
        id: ID.to_string(),
        kind: kind.to_string(),
        title: "Pay".to_string(),
        summary: None,
        status: "active".to_string(),
        payload_json: "{}".to_string(),
        source_record_id: None,
        sort_at: "2024-05-01T10:00:00+00:00".to_string(),
        created_at: "2024-05-01T10:00:00+00:00".to_string(),
        updated_at: "2024-05-02T10:00:00+00:00".to_string(),
        deleted_at: None,
        revision: 2,
        schema_version: 1,
        origin_device_id: "dev".to_string(),
        external_id: Some("ext".to_string()),
    }
}

#[test]
fn migrations_by_version() {
    assert_eq!(migration_for(0), MigrationStep::CreateSchema);
    assert_eq!(migration_for(SCHEMA_VERSION), MigrationStep::UpToDate);
    assert_eq!(migration_for(13), MigrationStep::VersionMismatch { expected: 14, actual: 13 });
    assert_eq!(DEFAULT_DB_FILENAME, "core_os.db");
}

#[test]
fn decimal_text() {
    assert_eq!(u64_text(0), "0");
    assert_eq!(u64_text(1234567890), "1234567890");
    assert_eq!(u64_text(u64::MAX), u64::MAX.to_string());
    assert_eq!(i64_text(-20), "-20");
    assert_eq!(i64_text(i64::MIN), i64::MIN.to_string());
    assert_eq!(i64_text(i64::MAX), i64::MAX.to_string());
}

#[test]
fn record_queries() {
    assert!(records_by_kinds_query(&vec![], false).is_none());
    let (sql, params) = records_by_kinds_query(&vec![CoreRecordKind::Task, CoreRecordKind::TimelineItem], false).unwrap();
    assert_eq!(
        sql,
        "SELECT id, kind, title, summary, status, payload_json, source_record_id, sort_at, created_at, updated_at, \
         deleted_at, revision, schema_version, origin_device_id, external_id FROM core_records WHERE kind IN (?, ?) \
         AND deleted_at IS NULL ORDER BY sort_at DESC, created_at DESC"
    );
    assert_eq!(params, vec!["task".to_string(), "timeline_item".to_string()]);
    let (sql, _) = records_by_kinds_query(&vec![CoreRecordKind::WidgetInstance], true).unwrap();
    assert!(sql.ends_with("WHERE kind IN (?) ORDER BY sort_at DESC, created_at DESC"));
}

#[test]
fn outbox_queries() {
    let (sql, param) = outbox_items_query(Some(SyncOutboxStatus::Pending), Some(20));
    assert_eq!(
        sql,
        "SELECT id, event_id, status, attempts, last_error, queued_at, last_attempt_at, processing_started_at \
         FROM sync_outbox WHERE status = ?1 ORDER BY queued_at ASC LIMIT 20"
    );
    assert_eq!(param.as_deref(), Some("pending"));
    let (sql, param) = outbox_items_query(None, None);
    assert!(sql.ends_with("FROM sync_outbox ORDER BY queued_at ASC"));
    assert_eq!(param, None);
    let (sql, _) = outbox_items_query(None, Some(-1));
    assert!(sql.ends_with("LIMIT -1"));
}

#[test]
fn stored_records_read_back() {
    let rec = record_from_columns(columns("task")).unwrap();
    assert_eq!(rec.id, Uuid { value: 7 });
    assert_eq!(rec.kind, CoreRecordKind::Task);
    assert_eq!(rec.updated_at, parse_rfc3339("2024-05-02T10:00:00Z").unwrap());
    assert_eq!(rec.revision, 2);
    assert_eq!(rec.external_id.as_deref(), Some("ext"));
    match record_from_columns(columns("bogus")) {
        Err(RowError::UnknownKind(m)) => assert_eq!(m, "unknown CORE kind: bogus"),
        other => panic!("unexpected {other:?}"),
    }
    let mut bad = columns("task");
    bad.created_at = "yesterday".to_string();
    assert!(matches!(record_from_columns(bad), Err(RowError::InvalidTimestamp(ref t)) if t == "yesterday"));
    let mut bad = columns("task");
    bad.source_record_id = Some("nope".to_string());
    assert!(matches!(record_from_columns(bad), Err(RowError::InvalidUuid(_))));
}

#[test]
fn stored_events_links_and_outbox_items_read_back() {
    let e = event_from_columns(EventColumns {
        id: ID.to_string(),
        record_id: "00000000-0000-0000-0000-000000000008".to_string(),
        kind: "widget_layout_changed".to_string(),
        payload_json: "{}".to_string(),
        occurred_at: "2024-05-01T10:00:00Z".to_string(),
        actor_type: "user".to_string(),
        actor_id: None,
        origin_device_id: "dev".to_string(),
        base_revision: 3,
        created_at: "2024-05-01T10:00:00Z".to_string(),
    })
    .unwrap();
    assert_eq!(e.kind, CoreEventKind::WidgetLayoutChanged);
    assert_eq!(e.record_id, Uuid { value: 8 });
    let l = link_from_columns(LinkColumns {
        id: ID.to_string(),
        source_record_id: ID.to_string(),
        target_record_id: ID.to_string(),
        kind: "parent_of".to_string(),
        metadata_json: "{}".to_string(),
        created_at: "2024-05-01T10:00:00Z".to_string(),
    })
    .unwrap();
    assert_eq!(l.kind, CoreLinkKind::ParentOf);
    let o = outbox_from_columns(OutboxColumns {
        id: ID.to_string(),
        event_id: ID.to_string(),
        status: "failed".to_string(),
        attempts: 2,
        last_error: Some("x".to_string()),
        queued_at: "2024-05-01T10:00:00Z".to_string(),
        last_attempt_at: Some("2024-05-01T11:00:00Z".to_string()),
        processing_started_at: None,
    })
    .unwrap();
    assert_eq!(o.status, SyncOutboxStatus::Failed);
    assert_eq!(o.attempts, 2);
    assert_eq!(o.last_attempt_at, Some(parse_rfc3339("2024-05-01T11:00:00Z").unwrap()));
    assert!(outbox_from_columns(OutboxColumns {
        id: ID.to_string(),
        event_id: ID.to_string(),
        status: "waiting".to_string(),
        attempts: 0,
        last_error: None,
        queued_at: "2024-05-01T10:00:00Z".to_string(),
        last_attempt_at: None,
        processing_started_at: None,
    })
    .is_err());
}

#[test]
fn column_parsers() {
    assert_eq!(parse_uuid(ID).unwrap(), Uuid { value: 7 });
    assert!(matches!(parse_uuid("x"), Err(RowError::InvalidUuid(_))));
    assert_eq!(optional_uuid(&None).unwrap(), None);
    assert_eq!(optional_uuid(&Some(ID.to_string())).unwrap(), Some(Uuid { value: 7 }));
    assert!(parse_dt("2024-13-01T00:00:00Z").is_err());
    assert_eq!(optional_dt(&None).unwrap(), None);
    assert!(optional_dt(&Some("x".to_string())).is_err());
}

#[test]
fn records_are_merged_and_checked_before_they_are_stored() {
    let at = parse_rfc3339("2024-05-01T10:00:00Z").unwrap();
    let mut rec = CoreRecord::new_at(Uuid { value: 7 }, CoreRecordKind::Task, "Pay".to_string(), at);
    rec.payload_json = "{\"externalId\": \"gh-1\"}".to_string();
    let stored = prepare_record_for_store_at(rec.clone(), "2024-05-01T10:00:00+00:00").unwrap();
    assert_eq!(stored.external_id.as_deref(), Some("gh-1"));
    assert!(stored.record.payload_json.contains("isCompleted"));
    assert!(stored.record.payload_json.contains("sourceCaptureId"));
    let mut bad = rec.clone();
    bad.status = "bogus".to_string();
    assert!(matches!(prepare_record_for_store_at(bad, "x"),
        Err(ContractError::Validation(ref m)) if m == "Invalid status \"bogus\" for task"));
    rec.payload_json = "{\"externalId\": \"\"}".to_string();
    rec.external_id = Some("own".to_string());
    let stored = prepare_record_for_store_at(rec, "x").unwrap();
    assert_eq!(stored.external_id.as_deref(), Some("own"));
}

#[test]
fn local_pref_keys() {
    assert_eq!(LocalPrefKey::CloudDeviceId.as_str(), "core_cloud_device_id");
    assert_eq!(LocalPrefKey::SyncLastPullAt.as_str(), "core_sync_last_pull_at");
}

#[test]
fn written_rows_read_back_as_written() {
    let at = parse_rfc3339("2024-05-01T10:00:00.123456789Z").unwrap();
    let mut rec = CoreRecord::new_at(Uuid { value: 7 }, CoreRecordKind::Task, "Pay".to_string(), at);
    rec.source_record_id = Some(Uuid { value: 9 });
    rec.deleted_at = Some(parse_rfc3339("2016-12-31T23:59:60.5Z").unwrap());
    let stored = prepare_record_for_store_at(rec, "2024-05-01T10:00:00+00:00").unwrap();
    let columns = record_columns(&stored);
    assert_eq!(columns.sort_at, "2024-05-01T10:00:00.123456789+00:00");
    assert_eq!(columns.deleted_at.as_deref(), Some("2016-12-31T23:59:60.500+00:00"));
    let back = record_from_columns(columns).unwrap();
    assert_eq!(back.id, stored.record.id);
    assert_eq!(back.kind, stored.record.kind);
    assert_eq!(back.sort_at, stored.record.sort_at);
    assert_eq!(back.deleted_at, stored.record.deleted_at);
    assert_eq!(back.source_record_id, Some(Uuid { value: 9 }));
    assert_eq!(back.payload_json, stored.record.payload_json);

    let mut e = CoreEvent::new_at(Uuid { value: 1 }, Uuid { value: 7 }, CoreEventKind::RecordCreated, at);
    e.actor_id = Some("me".to_string());
    let back = event_from_columns(event_columns(&e)).unwrap();
    assert_eq!((back.id, back.record_id, back.kind, back.occurred_at), (e.id, e.record_id, e.kind, e.occurred_at));
    assert_eq!(back.actor_id, e.actor_id);

    let l = CoreLink::new_at(Uuid { value: 2 }, Uuid { value: 7 }, Uuid { value: 9 }, CoreLinkKind::References, at);
    let back = link_from_columns(link_columns(&l)).unwrap();
    assert_eq!((back.id, back.source_record_id, back.target_record_id, back.kind), (l.id, l.source_record_id, l.target_record_id, l.kind));

    let mut o = SyncOutboxItem::new_at(Uuid { value: 3 }, Uuid { value: 1 }, at);
    o.last_attempt_at = Some(at);
    let back = outbox_from_columns(outbox_columns(&o)).unwrap();
    assert_eq!((back.id, back.event_id, back.status, back.queued_at, back.last_attempt_at), (o.id, o.event_id, o.status, o.queued_at, o.last_attempt_at));
    assert_eq!(back.processing_started_at, None);
}

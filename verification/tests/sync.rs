use brian_desktop::drain::{
    is_local_only, is_remote_pull_configured, is_remote_push_configured, push_target, DrainAction, DrainFlow,
    DrainReply, PushTarget,
};
use brian_desktop::ids::Uuid;
use brian_desktop::json::{get_i64, get_str, parse_object, JsonValue};
use brian_desktop::kinds::{CoreEventKind, CoreLinkKind, CoreRecordKind};
use brian_desktop::models::{opt_is_in_range, CoreEvent, CoreLink, CoreRecord, SyncOutboxItem};
use brian_desktop::pull::{
    event_from_remote, last_pull_at, link_from_remote, metadata_to_string, page_query, parse_uuid_field,
    record_from_remote, should_apply_remote, tally_pull, PageCursor, PullResult,
};
use brian_desktop::push::{
    is_stale_revision, is_unique_violation, record_row, PushFlow, PushReply, PushRequest, PushResult, PushStage,
    PushStep,
};
use brian_desktop::sync_error::SyncError;
use brian_desktop::time::{parse_rfc3339, Timestamp};

fn at(text: &str) -> Timestamp {
    parse_rfc3339(text).unwrap()
}

fn uid(n: u128) -> Uuid {
    Uuid { value: n }
}

fn target() -> PushTarget {
    PushTarget { user_id: "user-1".to_string(), workspace_id: "ws-1".to_string(), device_id: "dev-1".to_string() }
}

fn row(text: &str) -> Vec<(String, JsonValue)> {
    parse_object(text).unwrap()
}

fn event(id: u128, record: u128, payload: &str) -> CoreEvent {
    let mut e = CoreEvent::new_at(uid(id), uid(record), CoreEventKind::RecordUpdated, at("2024-05-01T10:00:00Z"));
    e.payload_json = payload.to_string();
    e
}

fn record(id: u128) -> CoreRecord {
    CoreRecord::new_at(uid(id), CoreRecordKind::Task, "Ship".to_string(), at("2024-05-01T10:00:00Z"))
}

fn item(id: u128, event_id: u128) -> SyncOutboxItem {
    SyncOutboxItem::new_at(uid(id), uid(event_id), at("2024-05-01T10:00:00Z"))
}

#[test]
fn push_and_pull_configuration() {
    let s = |v: &str| Some(v.to_string());
    assert!(is_remote_push_configured(&s("u"), &s("w"), &s("d")));
    assert!(!is_remote_push_configured(&s("u"), &None, &s("d")));
    assert!(is_remote_pull_configured(&s("w")));
    assert!(!is_remote_pull_configured(&None));
    let t = push_target(&s("u"), &s("w"), &s("d")).unwrap();
    assert_eq!((t.user_id.as_str(), t.workspace_id.as_str(), t.device_id.as_str()), ("u", "w", "d"));
    assert!(matches!(push_target(&None, &s("w"), &s("d")), Err(SyncError::PushNotConfigured)));
}

#[test]
fn local_only_policy_is_read_from_the_event_payload() {
    assert!(is_local_only(&event(1, 2, "{\"outboxPolicy\":\"local_only\"}")));
    assert!(!is_local_only(&event(1, 2, "{\"outboxPolicy\":\"remote\"}")));
    assert!(!is_local_only(&event(1, 2, "{}")));
    assert!(!is_local_only(&event(1, 2, "not json")));
}

#[test]
fn drain_of_nothing_finishes_at_once() {
    let (flow, action) = DrainFlow::begin(Vec::new());
    assert!(matches!(action, DrainAction::Finished));
    assert_eq!((flow.report.processed, flow.report.synced, flow.report.failed), (0, 0, 0));
}

#[test]
fn drain_flow_walks_every_item() {
    let items = vec![item(1, 11), item(2, 12), item(3, 13), item(4, 14), item(5, 15)];
    let (mut flow, action) = DrainFlow::begin(items);

    // Item 1: its event is gone.
    assert!(matches!(action, DrainAction::ReadEvent { outbox_id, event_id } if outbox_id == uid(1) && event_id == uid(11)));
    let action = flow.advance(DrainReply::Event(None));
    match &action {
        DrainAction::MarkFailed { outbox_id, message } => {
            assert_eq!(*outbox_id, uid(1));
            assert_eq!(message, "Missing event 00000000-0000-0000-0000-00000000000b");
        },
        other => panic!("unexpected {other:?}"),
    }

    // Item 2: its event stays on this device.
    let action = flow.advance(DrainReply::Marked);
    assert!(matches!(action, DrainAction::ReadEvent { outbox_id, .. } if outbox_id == uid(2)));
    let action = flow.advance(DrainReply::Event(Some(event(12, 22, "{\"outboxPolicy\":\"local_only\"}"))));
    assert!(matches!(action, DrainAction::MarkSynced { outbox_id } if outbox_id == uid(2)));

    // Item 3: pushed and accepted.
    let action = flow.advance(DrainReply::Marked);
    assert!(matches!(action, DrainAction::ReadEvent { outbox_id, .. } if outbox_id == uid(3)));
    let action = flow.advance(DrainReply::Event(Some(event(13, 23, "{}"))));
    assert!(matches!(action, DrainAction::ReadRecord { record_id } if record_id == uid(23)));
    let action = flow.advance(DrainReply::Record(Some(record(23)), Vec::new()));
    match &action {
        DrainAction::Push { event, record, links, outbox } => {
            assert_eq!(event.id, uid(13));
            assert_eq!(record.id, uid(23));
            assert!(links.is_empty());
            assert_eq!(outbox.id, uid(3));
        },
        other => panic!("unexpected {other:?}"),
    }
    let action = flow.advance(DrainReply::Pushed(PushResult { accepted: true, error: None }));
    assert!(matches!(action, DrainAction::MarkSynced { outbox_id } if outbox_id == uid(3)));

    // Item 4: its record is gone.
    flow.advance(DrainReply::Marked);
    flow.advance(DrainReply::Event(Some(event(14, 24, "{}"))));
    let action = flow.advance(DrainReply::Record(None, Vec::new()));
    match &action {
        DrainAction::MarkFailed { outbox_id, message } => {
            assert_eq!(*outbox_id, uid(4));
            assert_eq!(message, "Missing record 00000000-0000-0000-0000-000000000018");
        },
        other => panic!("unexpected {other:?}"),
    }

    // Item 5: the server refuses the push without a message.
    flow.advance(DrainReply::Marked);
    flow.advance(DrainReply::Event(Some(event(15, 25, "{}"))));
    flow.advance(DrainReply::Record(Some(record(25)), Vec::new()));
    let action = flow.advance(DrainReply::Pushed(PushResult { accepted: false, error: None }));
    match &action {
        DrainAction::MarkFailed { outbox_id, message } => {
            assert_eq!(*outbox_id, uid(5));
            assert_eq!(message, "push rejected");
        },
        other => panic!("unexpected {other:?}"),
    }

    let action = flow.advance(DrainReply::Marked);
    assert!(matches!(action, DrainAction::Finished));
    assert_eq!(flow.report.processed, 5);
    assert_eq!(flow.report.synced, 2);
    assert_eq!(flow.report.failed, 3);
    assert_eq!(flow.report.errors, vec!["push rejected".to_string()]);
}

#[test]
fn drain_keeps_the_servers_refusal_message() {
    let (mut flow, _) = DrainFlow::begin(vec![item(1, 11)]);
    flow.advance(DrainReply::Event(Some(event(11, 21, "{}"))));
    flow.advance(DrainReply::Record(Some(record(21)), Vec::new()));
    let action = flow.advance(DrainReply::Pushed(PushResult { accepted: false, error: Some("stale_revision".to_string()) }));
    assert!(matches!(action, DrainAction::MarkFailed { ref message, .. } if message == "stale_revision"));
    assert!(matches!(flow.advance(DrainReply::Marked), DrainAction::Finished));
    assert_eq!(flow.report.errors, vec!["stale_revision".to_string()]);
    assert_eq!((flow.report.processed, flow.report.synced, flow.report.failed), (1, 0, 1));
}

#[test]
fn unique_violations_are_recognised() {
    assert!(is_unique_violation("HTTP status client error (409 Conflict)"));
    assert!(is_unique_violation("duplicate key value violates unique constraint 23505"));
    assert!(!is_unique_violation("HTTP status server error (500)"));
}

#[test]
fn stale_revision_reads_the_first_row() {
    assert!(is_stale_revision(&vec![row("{\"revision\": 5}")], 4));
    assert!(!is_stale_revision(&vec![row("{\"revision\": 4}")], 4));
    assert!(!is_stale_revision(&vec![], 4));
    assert!(!is_stale_revision(&vec![row("{}")], 0));
    assert!(is_stale_revision(&vec![row("{}")], -1));
}

#[test]
fn record_row_carries_the_pusher() {
    let mut rec = record(7);
    rec.payload_json = "{\"dueAt\": null}".to_string();
    let r = record_row(&rec, &target());
    assert_eq!(r.len(), 16);
    assert_eq!(get_str(&r, "id"), Some("00000000-0000-0000-0000-000000000007".to_string()));
    assert_eq!(get_str(&r, "user_id"), Some("user-1".to_string()));
    assert_eq!(get_str(&r, "workspace_id"), Some("ws-1".to_string()));
    assert_eq!(get_str(&r, "origin_device_id"), Some("dev-1".to_string()));
    assert_eq!(get_str(&r, "kind"), Some("task".to_string()));
    assert_eq!(get_str(&r, "created_at"), Some("2024-05-01T10:00:00+00:00".to_string()));
    assert_eq!(get_i64(&r, "revision"), Some(1));
}

fn send_table(step: &PushStep) -> (&'static str, String) {
    match step {
        PushStep::Send(PushRequest::Get { table, .. }) => ("get", table.clone()),
        PushStep::Send(PushRequest::Upsert { table, .. }) => ("upsert", table.clone()),
        PushStep::Send(PushRequest::Post { table, .. }) => ("post", table.clone()),
        PushStep::Finished(_) => ("finished", String::new()),
    }
}

#[test]
fn push_flow_sends_record_event_links_and_ack() {
    let link = CoreLink::new_at(uid(31), uid(23), uid(40), CoreLinkKind::LinkedRecord, at("2024-05-01T10:00:00Z"));
    let (mut flow, step) = PushFlow::begin(target(), event(13, 23, "{}"), record(23), vec![link], item(3, 13));
    match &step {
        PushStep::Send(PushRequest::Get { table, query }) => {
            assert_eq!(table, "core_records");
            assert_eq!(query, "?select=revision&id=eq.00000000-0000-0000-0000-000000000017");
        },
        other => panic!("unexpected {other:?}"),
    }
    let step = flow.advance(PushReply::Rows(Vec::new()));
    assert_eq!(send_table(&step), ("upsert", "core_records".to_string()));
    let step = flow.advance(PushReply::Sent);
    assert_eq!(send_table(&step), ("post", "core_events".to_string()));
    // The event is already on the server: passed over.
    let step = flow.advance(PushReply::Failed("409 Conflict".to_string()));
    assert_eq!(send_table(&step), ("upsert", "core_links".to_string()));
    assert_eq!(flow.stage, PushStage::SendLink(0));
    let step = flow.advance(PushReply::Sent);
    match &step {
        PushStep::Send(PushRequest::Post { table, body }) => {
            assert_eq!(table, "client_outbox");
            assert_eq!(get_str(body, "status"), Some("synced".to_string()));
            assert_eq!(get_str(body, "event_id"), Some("00000000-0000-0000-0000-00000000000d".to_string()));
            assert_eq!(get_i64(body, "attempts"), Some(0));
        },
        other => panic!("unexpected {other:?}"),
    }
    let step = flow.advance(PushReply::Sent);
    assert!(matches!(step, PushStep::Finished(Ok(PushResult { accepted: true, error: None }))));
    assert_eq!(flow.stage, PushStage::Done);
}

#[test]
fn push_flow_refuses_a_stale_record() {
    let (mut flow, _) = PushFlow::begin(target(), event(13, 23, "{}"), record(23), Vec::new(), item(3, 13));
    let step = flow.advance(PushReply::Rows(vec![row("{\"revision\": 9}")]));
    match step {
        PushStep::Finished(Ok(r)) => {
            assert!(!r.accepted);
            assert_eq!(r.error.as_deref(), Some("stale_revision"));
        },
        other => panic!("unexpected {other:?}"),
    }
}

#[test]
fn push_flow_stops_on_a_failed_record_write() {
    let (mut flow, _) = PushFlow::begin(target(), event(13, 23, "{}"), record(23), Vec::new(), item(3, 13));
    flow.advance(PushReply::Rows(Vec::new()));
    let step = flow.advance(PushReply::Failed("409 Conflict".to_string()));
    assert!(matches!(step, PushStep::Finished(Err(SyncError::Auth(ref m))) if m == "409 Conflict"));
    let (mut flow, _) = PushFlow::begin(target(), event(13, 23, "{}"), record(23), Vec::new(), item(3, 13));
    flow.advance(PushReply::Rows(Vec::new()));
    flow.advance(PushReply::Sent);
    let step = flow.advance(PushReply::Failed("HTTP 500".to_string()));
    assert!(matches!(step, PushStep::Finished(Err(SyncError::Auth(ref m))) if m == "HTTP 500"));
}

#[test]
fn remote_record_reads_members_with_defaults() {
    let r = row(
        "{\"id\": \"00000000-0000-0000-0000-000000000007\", \"kind\": \"task\", \"title\": \"Pay\", \
          \"payload_json\": {\"b\": 1}, \"revision\": 3, \"updated_at\": \"2024-05-02T08:00:00Z\", \
          \"deleted_at\": \"2024-05-03T08:00:00+02:00\", \"source_record_id\": \"nope\"}",
    );
    let rec = record_from_remote(&r).unwrap();
    assert_eq!(rec.id, uid(7));
    assert_eq!(rec.kind, CoreRecordKind::Task);
    assert_eq!(rec.title, "Pay");
    assert_eq!(rec.status, "active");
    assert_eq!(rec.payload_json, "{\"b\":1}");
    assert_eq!(rec.revision, 3);
    assert_eq!(rec.schema_version, 1);
    assert_eq!(rec.origin_device_id, "remote");
    assert_eq!(rec.source_record_id, None);
    assert_eq!(rec.updated_at, at("2024-05-02T08:00:00Z"));
    assert_eq!(rec.deleted_at, Some(at("2024-05-03T06:00:00Z")));
    assert_eq!(rec.summary, None);
}

#[test]
fn remote_record_errors() {
    match record_from_remote(&row("{\"kind\": \"task\"}")) {
        Err(SyncError::Other { message }) => assert_eq!(message, "missing id"),
        other => panic!("unexpected {other:?}"),
    }
    match record_from_remote(&row("{\"id\": \"00000000-0000-0000-0000-000000000007\", \"kind\": \"zzz\"}")) {
        Err(SyncError::Other { message }) => assert_eq!(message, "unknown CORE kind: zzz"),
        other => panic!("unexpected {other:?}"),
    }
    let missing_kind = record_from_remote(&row("{\"id\": \"00000000-0000-0000-0000-000000000007\"}")).unwrap();
    assert_eq!(missing_kind.kind, CoreRecordKind::Email);
    assert!(matches!(record_from_remote(&row("{\"id\": \"xyz\"}")), Err(SyncError::Other { .. })));
}

#[test]
fn remote_links_and_events() {
    let l = link_from_remote(&row(
        "{\"id\": \"00000000-0000-0000-0000-000000000001\", \"source_record_id\": \"00000000-0000-0000-0000-000000000002\", \
          \"target_record_id\": \"00000000-0000-0000-0000-000000000003\", \"metadata_json\": \"{\\\"w\\\":1}\"}",
    ))
    .unwrap();
    assert_eq!((l.id, l.source_record_id, l.target_record_id), (uid(1), uid(2), uid(3)));
    assert_eq!(l.kind, CoreLinkKind::LinkedRecord);
    assert_eq!(l.metadata_json, "{\"w\":1}");
    match link_from_remote(&row("{\"id\": \"00000000-0000-0000-0000-000000000001\"}")) {
        Err(SyncError::Other { message }) => assert_eq!(message, "missing source_record_id"),
        other => panic!("unexpected {other:?}"),
    }
    let e = event_from_remote(&row(
        "{\"id\": \"00000000-0000-0000-0000-000000000004\", \"record_id\": \"00000000-0000-0000-0000-000000000005\", \
          \"base_revision\": 2, \"actor_id\": \"a\"}",
    ))
    .unwrap();
    assert_eq!(e.kind, CoreEventKind::RecordUpdated);
    assert_eq!(e.actor_type, "system");
    assert_eq!(e.actor_id.as_deref(), Some("a"));
    assert_eq!(e.base_revision, 2);
    assert_eq!(e.payload_json, "{}");
    assert_eq!(e.origin_device_id, "remote");
}

#[test]
fn member_text_and_uuid_fields() {
    assert_eq!(metadata_to_string(None), "{}");
    assert_eq!(metadata_to_string(Some(&JsonValue::Str("x".to_string()))), "x");
    assert_eq!(metadata_to_string(Some(&JsonValue::Int(4))), "4");
    assert_eq!(metadata_to_string(Some(&JsonValue::Null)), "null");
    let r = row("{\"id\": \"00000000-0000-0000-0000-00000000000a\"}");
    assert_eq!(parse_uuid_field(&r, "id").unwrap(), uid(10));
    assert!(matches!(parse_uuid_field(&r, "other"), Err(SyncError::Other { ref message }) if message == "missing other"));
}

#[test]
fn newer_local_revisions_win() {
    assert!(should_apply_remote(None, 1));
    assert!(should_apply_remote(Some(2), 2));
    assert!(should_apply_remote(Some(1), 2));
    assert!(!should_apply_remote(Some(3), 2));
}

#[test]
fn pull_result_tallies_outcomes() {
    let latest = Some(at("2024-05-01T10:00:00Z"));
    let mut result = PullResult::starting(latest);
    result.count_record(Ok(true), uid(1));
    result.count_record(Ok(false), uid(2));
    result.count_record(Err("disk full".to_string()), uid(3));
    result.count_link(Ok(()), uid(4));
    result.count_event(Err("boom".to_string()), uid(5));
    assert_eq!((result.records_pulled, result.links_pulled, result.events_pulled), (1, 1, 0));
    assert_eq!(
        result.errors,
        vec![
            "record 00000000-0000-0000-0000-000000000003: disk full".to_string(),
            "event 00000000-0000-0000-0000-000000000005: boom".to_string(),
        ]
    );
    assert_eq!(result.latest_updated_at, latest);
}

#[test]
fn page_queries() {
    assert_eq!(
        page_query("ws-1", "updated_at", None),
        "?select=*&workspace_id=eq.ws-1&order=updated_at.asc&limit=100"
    );
    assert_eq!(
        page_query("ws-1", "created_at", Some(at("2024-05-01T10:00:00Z"))),
        "?select=*&workspace_id=eq.ws-1&order=created_at.asc&limit=100&created_at=gt.2024-05-01T10:00:00+00:00"
    );
}

#[test]
fn page_cursor_follows_the_last_row() {
    let t1 = at("2024-05-01T10:00:00Z");
    let t2 = at("2024-05-03T10:00:00Z");
    let t3 = at("2024-05-02T10:00:00Z");
    let mut cursor = PageCursor::starting(None);
    assert!(!cursor.absorb_page(&Vec::new()));
    assert_eq!((cursor.cursor, cursor.latest), (None, None));
    let more = cursor.absorb_page(&vec![Some(t1), Some(t2), Some(t3)]);
    assert!(!more);
    assert_eq!(cursor.cursor, Some(t3));
    assert_eq!(cursor.latest, Some(t2));
    let more = cursor.absorb_page(&vec![Some(t1), None]);
    assert!(!more);
    assert_eq!(cursor.cursor, Some(t3));
    assert_eq!(cursor.latest, Some(t2));
    let full: Vec<Option<Timestamp>> = (0..100).map(|_| Some(t1)).collect();
    assert!(cursor.absorb_page(&full));
    assert_eq!(cursor.cursor, Some(t1));
}

#[test]
fn last_pull_is_read_from_its_stored_text() {
    assert_eq!(last_pull_at(None), None);
    assert_eq!(last_pull_at(Some("garbage".to_string())), None);
    assert_eq!(last_pull_at(Some("2024-05-01T12:00:00+02:00".to_string())), Some(at("2024-05-01T10:00:00Z")));
}

#[test]
fn sync_error_messages() {
    assert_eq!(SyncError::NotAuthenticated.message(), "not authenticated");
    assert_eq!(SyncError::WorkspaceMissing.message(), "workspace missing");
    assert_eq!(SyncError::Auth("401".to_string()).message(), "auth: 401");
    assert_eq!(SyncError::Db("locked".to_string()).message(), "db: locked");
    assert_eq!(SyncError::Sqlite("io".to_string()).message(), "sqlite: io");
    assert_eq!(SyncError::LocalPref("x".to_string()).message(), "local pref: x");
    assert_eq!(SyncError::PullNotConfigured.message(), "pull not configured");
    assert_eq!(SyncError::PushNotConfigured.message(), "push not configured");
    assert_eq!(SyncError::Other { message: "m".to_string() }.message(), "sync: m");
}

#[test]
fn pull_tally_counts_every_row_once() {
    let latest = Some(at("2024-05-01T10:00:00Z"));
    let records = vec![
        (uid(1), Ok(true)),
        (uid(2), Ok(false)),
        (uid(3), Err("disk full".to_string())),
        (uid(4), Ok(true)),
    ];
    let links = vec![(uid(5), Err("no record".to_string())), (uid(6), Ok(()))];
    let events = vec![(uid(7), Ok(())), (uid(8), Err("boom".to_string()))];
    let result = tally_pull(latest, &records, &links, &events);
    assert_eq!((result.records_pulled, result.links_pulled, result.events_pulled), (2, 1, 1));
    assert_eq!(
        result.errors,
        vec![
            "record 00000000-0000-0000-0000-000000000003: disk full".to_string(),
            "link 00000000-0000-0000-0000-000000000005: no record".to_string(),
            "event 00000000-0000-0000-0000-000000000008: boom".to_string(),
        ]
    );
    assert_eq!(result.latest_updated_at, latest);
    let empty = tally_pull(None, &Vec::new(), &Vec::new(), &Vec::new());
    assert_eq!((empty.records_pulled, empty.links_pulled, empty.events_pulled), (0, 0, 0));
    assert!(empty.errors.is_empty());
}

#[test]
fn record_times_must_lie_in_range() {
    let mut r = record(1);
    assert!(r.times_are_in_range());
    r.deleted_at = Some(Timestamp { secs: i64::MAX, nanos: 0 });
    assert!(!r.times_are_in_range());
    assert!(opt_is_in_range(&None));
    assert!(!opt_is_in_range(&Some(Timestamp { secs: i64::MIN, nanos: 0 })));
}

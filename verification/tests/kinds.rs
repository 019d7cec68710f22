use brian_desktop::kinds::{CoreEventKind, CoreLinkKind, CoreRecordKind, SyncOutboxStatus};
use brian_desktop::models::{parse_outbox_status, parse_record_kind};
use std::collections::HashSet;

#[test]
fn unknown_kind_fails_closed() {
    assert!("not_a_kind".parse::<CoreRecordKind>().is_err());
}

#[test]
fn record_kind_wire_strings_round_trip() {
    let all = CoreRecordKind::all();
    assert_eq!(all.len(), 25);
    let mut seen = HashSet::new();
    for k in all {
        assert!(seen.insert(k.as_str()));
        assert_eq!(CoreRecordKind::parse(k.as_str()).unwrap(), k);
        assert_eq!(k.as_str().parse::<CoreRecordKind>().unwrap(), k);
    }
    assert_eq!(CoreRecordKind::TimelineItem.as_str(), "timeline_item");
    assert_eq!(CoreRecordKind::AgentSessionSummary.to_wire_string(), "agent_session_summary");
}

#[test]
fn event_link_and_status_kinds_round_trip() {
    assert_eq!(CoreEventKind::all().len(), 19);
    for k in CoreEventKind::all() {
        assert_eq!(CoreEventKind::parse(k.as_str()).unwrap(), k);
    }
    assert_eq!(CoreLinkKind::all().len(), 8);
    for k in CoreLinkKind::all() {
        assert_eq!(CoreLinkKind::parse(k.as_str()).unwrap(), k);
    }
    assert_eq!(SyncOutboxStatus::all().len(), 4);
    for k in SyncOutboxStatus::all() {
        assert_eq!(SyncOutboxStatus::parse(k.as_str()).unwrap(), k);
    }
    assert_eq!(CoreEventKind::WidgetLayoutChanged.as_str(), "widget_layout_changed");
    assert_eq!(CoreLinkKind::PublishesTo.as_str(), "publishes_to");
    assert_eq!(SyncOutboxStatus::Processing.as_str(), "processing");
}

#[test]
fn unknown_kind_error_carries_text() {
    let err = CoreEventKind::parse("Record_Created").unwrap_err();
    assert_eq!(err.0, "Record_Created");
    assert_eq!(err.message(), "unknown CORE kind: Record_Created");
    assert!(CoreLinkKind::parse("").is_err());
    assert!(SyncOutboxStatus::parse("pending ").is_err());
}

#[test]
fn parse_helpers_report_messages() {
    assert_eq!(parse_record_kind("task").unwrap(), CoreRecordKind::Task);
    assert_eq!(parse_record_kind("tasks").unwrap_err(), "unknown CORE kind: tasks");
    assert_eq!(parse_outbox_status("synced").unwrap(), SyncOutboxStatus::Synced);
    assert_eq!(parse_outbox_status("done").unwrap_err(), "unknown CORE kind: done");
}

use brian_desktop::contract::{ContractError, RecordContract};
use brian_desktop::json::{get, get_bool, get_i64, get_str, parse_json, parse_object, print_json, JsonDoc, JsonValue};
use brian_desktop::kinds::CoreRecordKind;
use brian_desktop::models::CoreRecord;

fn keys_of(text: &str) -> Vec<String> {
    match parse_json(text) {
        Some(JsonDoc::Object(fields)) => fields.into_iter().map(|(k, _)| k).collect(),
        _ => panic!("not an object: {text}"),
    }
}

#[test]
fn task_requires_payload_keys() {
    let record = CoreRecord::new(CoreRecordKind::Task, "Test".to_string());
    assert!(!RecordContract::validation_issues(&record).is_empty());
    let merged = RecordContract::with_merged_payload(record);
    RecordContract::validate(&merged).expect("merged task valid");
}

#[test]
fn validation_reports_each_issue_in_order() {
    let mut record = CoreRecord::new(CoreRecordKind::Task, "T".to_string());
    record.status = "archived".to_string();
    record.schema_version = 0;
    record.revision = 0;
    record.payload_json = "{\"dueAt\": null}".to_string();
    let issues = RecordContract::validation_issues(&record);
    assert_eq!(
        issues,
        vec![
            "Invalid status \"archived\" for task".to_string(),
            "schemaVersion must be >= 1".to_string(),
            "revision must be >= 1".to_string(),
            "Missing required payload key \"sourceCaptureId\" for task".to_string(),
            "Missing required payload key \"isCompleted\" for task".to_string(),
        ]
    );
    match RecordContract::validate(&record) {
        Err(ContractError::ValidationList(l)) => assert_eq!(l.len(), 5),
        other => panic!("unexpected {other:?}"),
    }
}

#[test]
fn payload_must_be_a_json_object() {
    let mut record = CoreRecord::new(CoreRecordKind::AppSetting, "k".to_string());
    record.payload_json = "not json".to_string();
    match RecordContract::validate(&record) {
        Err(ContractError::Validation(m)) => assert_eq!(m, "payload_json must be valid JSON"),
        other => panic!("unexpected {other:?}"),
    }
    record.payload_json = "[1, 2]".to_string();
    match RecordContract::validate(&record) {
        Err(ContractError::Validation(m)) => assert_eq!(m, "payload_json must decode to a JSON object"),
        other => panic!("unexpected {other:?}"),
    }
    record.payload_json = "{}".to_string();
    assert!(RecordContract::validate(&record).is_ok());
}

#[test]
fn contract_error_messages() {
    let e = ContractError::Validation("revision must be >= 1".to_string());
    assert_eq!(e.message(), "record contract violation: revision must be >= 1");
    let e = ContractError::ValidationList(vec!["a".to_string(), "b".to_string()]);
    assert_eq!(e.message(), "multiple contract violations: [\"a\", \"b\"]");
    let e = ContractError::ValidationList(vec!["Invalid status \"x\" for task".to_string(), "revision must be >= 1".to_string()]);
    assert_eq!(
        e.message(),
        "multiple contract violations: [\"Invalid status \\\"x\\\" for task\", \"revision must be >= 1\"]"
    );
}

#[test]
fn allowed_statuses_per_kind() {
    assert!(RecordContract::allows_status(CoreRecordKind::Capture, "classifying"));
    assert!(!RecordContract::allows_status(CoreRecordKind::Capture, "active"));
    assert!(RecordContract::allows_status(CoreRecordKind::Connector, "paused"));
    assert!(!RecordContract::allows_status(CoreRecordKind::Outlet, "paused"));
    assert_eq!(RecordContract::allowed_statuses(CoreRecordKind::AgentSuggestion), &["pending_review", "materialized", "dismissed", "deleted"]);
    assert_eq!(RecordContract::allowed_statuses(CoreRecordKind::FeedItem), &["active", "deleted"]);
}

#[test]
fn expected_payload_keys_per_kind() {
    assert_eq!(RecordContract::expected_payload_keys(CoreRecordKind::AppSetting), Some(&[][..]));
    assert_eq!(RecordContract::expected_payload_keys(CoreRecordKind::UserMemory).unwrap().len(), 14);
    assert_eq!(RecordContract::expected_payload_keys(CoreRecordKind::Connector), Some(&["provider", "accountLabel", "status", "lastSyncAt"][..]));
    assert_eq!(RecordContract::expected_payload_keys(CoreRecordKind::RepoEvent).unwrap()[3], "repoFullName");
}

#[test]
fn merge_adds_missing_defaults_only() {
    let mut record = CoreRecord::new(CoreRecordKind::WidgetInstance, "w".to_string());
    record.payload_json = "{\"posX\": 5, \"extra\": true}".to_string();
    let merged = RecordContract::with_merged_payload_at(record, "");
    match parse_json(&merged.payload_json) {
        Some(JsonDoc::Object(fields)) => {
            let get = |k: &str| fields.iter().find(|(n, _)| n == k).map(|(_, v)| v.clone());
            assert!(matches!(get("posX"), Some(JsonValue::Int(5))));
            assert!(matches!(get("width"), Some(JsonValue::Int(2))));
            assert!(matches!(get("extra"), Some(JsonValue::Bool(true))));
            assert!(matches!(get("configJson"), Some(JsonValue::Str(ref s)) if s == "{}"));
            assert_eq!(fields.len(), 7);
        }
        _ => panic!("merged payload is not an object"),
    }
    assert_eq!(merged.title, "w");
}

#[test]
fn merge_treats_bad_json_as_empty_and_keeps_non_objects() {
    let mut record = CoreRecord::new(CoreRecordKind::TimelineItem, "t".to_string());
    record.payload_json = "{oops".to_string();
    let merged = RecordContract::with_merged_payload_at(record, "");
    assert_eq!(merged.payload_json, "{\"timelineType\":\"note\"}");
    let mut record = CoreRecord::new(CoreRecordKind::Task, "t".to_string());
    record.payload_json = " [1, 2] ".to_string();
    let merged = RecordContract::with_merged_payload_at(record, "");
    assert_eq!(merged.payload_json, "[1,2]");
}

#[test]
fn habit_defaults_start_at_given_instant() {
    let d = RecordContract::default_payload_at(CoreRecordKind::Habit, "2024-01-02T03:04:05+00:00");
    assert_eq!(d.len(), 5);
    assert!(matches!(&d[2], (k, JsonValue::Str(v)) if k == "startDate" && v == "2024-01-02T03:04:05+00:00"));
    assert!(RecordContract::default_payload_at(CoreRecordKind::Email, "x").is_empty());
    let d = RecordContract::default_payload(CoreRecordKind::Habit);
    assert!(matches!(&d[2].1, JsonValue::Str(v) if v.len() >= 20));
    let keys = keys_of(&print_json(&JsonDoc::Object(RecordContract::default_payload_at(CoreRecordKind::Connector, ""))));
    assert_eq!(keys, vec!["accountLabel", "lastSyncAt", "provider", "status"]);
}

#[test]
fn merge_keeps_existing_values_and_adds_defaults() {
    let mut rec = CoreRecord::new(CoreRecordKind::Task, "Keep".to_string());
    rec.payload_json = "{\"isCompleted\": true, \"n\": 5, \"tags\": [1, {\"b\": 2}], \"note\": \"x\"}".to_string();
    let merged = RecordContract::with_merged_payload(rec);
    let m = parse_object(&merged.payload_json).unwrap();
    assert_eq!(get_bool(&m, "isCompleted"), Some(true));
    assert_eq!(get_i64(&m, "n"), Some(5));
    assert_eq!(get_str(&m, "note"), Some("x".to_string()));
    assert!(matches!(get(&m, "tags"), Some(JsonValue::Other(_))));
    assert!(matches!(get(&m, "dueAt"), Some(JsonValue::Null)));
    assert_eq!(get_str(&m, "sourceCaptureId"), Some(String::new()));
    assert_eq!(m.len(), 6);
}

#[test]
fn merge_keeps_arrays_objects_and_big_numbers_whole() {
    let mut rec = CoreRecord::new(CoreRecordKind::Capture, "Whole".to_string());
    rec.payload_json = "{\"tags\": [1, {\"b\": \"e.1\"}], \"big\": 18446744073709551615, \"content\": \"hi\"}".to_string();
    let before = parse_object(&rec.payload_json).unwrap();
    let merged = RecordContract::with_merged_payload(rec);
    let after = parse_object(&merged.payload_json).unwrap();
    let same = |key: &str| match (get(&before, key), get(&after, key)) {
        (Some(JsonValue::Other(a)), Some(JsonValue::Other(b))) => a == b,
        _ => false,
    };
    assert!(same("tags"));
    assert!(same("big"));
    assert_eq!(get_str(&after, "content"), Some("hi".to_string()));
    assert_eq!(get_bool(&after, "offloadRequested"), Some(false));
    assert_eq!(get_str(&after, "classification"), Some("journal".to_string()));
}

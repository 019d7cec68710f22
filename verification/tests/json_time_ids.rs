use brian_desktop::ids::{is_uuid, Uuid};
use brian_desktop::json::{embed_json, get_i64, get_str, parse_json, parse_object, print_json, print_object, JsonDoc, JsonValue};
use brian_desktop::time::{max_dt, now, parse_rfc3339, to_rfc3339, Timestamp, MAX_SECS, MIN_SECS};

#[test]
fn json_parse_reads_top_level_members() {
    let fields = parse_object("{\"a\": 1, \"b\": \"x\", \"c\": [1], \"d\": null, \"e\": 1.5, \"f\": false}").unwrap();
    assert_eq!(fields.len(), 6);
    assert_eq!(get_i64(&fields, "a"), Some(1));
    assert_eq!(get_str(&fields, "b"), Some("x".to_string()));
    assert_eq!(get_str(&fields, "a"), None);
    assert_eq!(get_i64(&fields, "e"), None);
    assert!(parse_object("[1]").is_none());
    assert!(parse_json("nope").is_none());
    assert!(matches!(parse_json("7"), Some(JsonDoc::Value(JsonValue::Int(7)))));
}

#[test]
fn json_print_round_trips_members() {
    let doc = JsonDoc::Object(vec![
        ("z".to_string(), JsonValue::Int(-3)),
        ("a".to_string(), JsonValue::Str("q\"".to_string())),
        ("n".to_string(), JsonValue::Null),
    ]);
    let text = print_json(&doc);
    assert_eq!(text, "{\"a\":\"q\\\"\",\"n\":null,\"z\":-3}");
    let back = parse_object(&text).unwrap();
    assert_eq!(get_i64(&back, "z"), Some(-3));
    assert_eq!(print_json(&JsonDoc::Value(JsonValue::Bool(true))), "true");
}

#[test]
fn embed_json_keeps_values_and_defaults_to_empty_object() {
    assert!(matches!(embed_json("12"), JsonValue::Int(12)));
    assert!(matches!(embed_json("\"s\""), JsonValue::Str(ref s) if s == "s"));
    assert_eq!(print_json(&JsonDoc::Value(embed_json("{\"k\": [1, 2]}"))), "{\"k\":[1,2]}");
    assert_eq!(print_json(&JsonDoc::Value(embed_json("garbage"))), "{}");
}

#[test]
fn uuid_text_round_trips() {
    let u = Uuid { value: 0x0123_4567_89ab_cdef_0123_4567_89ab_cdef };
    let t = u.to_text();
    assert_eq!(t, "01234567-89ab-cdef-0123-456789abcdef");
    assert_eq!(Uuid::parse_str(&t), Some(u));
    assert!(Uuid::try_parse("zz").is_err());
    assert!(is_uuid("01234567-89ab-cdef-0123-456789abcdef"));
    assert!(!is_uuid("01234567-89ab-cdef"));
    let a = Uuid::new_v4();
    let b = Uuid::new_v4();
    assert_ne!(a, b);
}

#[test]
fn rfc3339_round_trips_and_orders() {
    let t = parse_rfc3339("2024-03-01T10:00:00.5+02:00").unwrap();
    assert_eq!(t, Timestamp { secs: 1709280000, nanos: 500_000_000 });
    assert_eq!(to_rfc3339(&t), "2024-03-01T08:00:00.500+00:00");
    assert!(parse_rfc3339("yesterday").is_none());
    let earlier = Timestamp { secs: 10, nanos: 5 };
    let later = Timestamp { secs: 10, nanos: 6 };
    assert!(earlier.is_before(&later));
    assert!(!later.is_before(&earlier));
    assert_eq!(max_dt(Some(earlier), Some(later)), Some(later));
    assert_eq!(max_dt(None, Some(earlier)), Some(earlier));
    assert_eq!(max_dt(Some(later), None), Some(later));
    assert_eq!(max_dt(None, None), None);
    let n = now();
    assert!(n.secs > 1_600_000_000);
}

#[test]
fn chrono_range_bounds() {
    assert_eq!((chrono::DateTime::<chrono::Utc>::MIN_UTC.timestamp(), chrono::DateTime::<chrono::Utc>::MAX_UTC.timestamp()), (MIN_SECS, MAX_SECS));
    assert!(to_rfc3339(&Timestamp { secs: MIN_SECS, nanos: 0 }).starts_with("-262143-01-"));
    assert_eq!(to_rfc3339(&Timestamp { secs: MAX_SECS, nanos: 0 }), "+262142-12-31T23:59:59+00:00");
    assert!(chrono::DateTime::from_timestamp(MIN_SECS - 1, 0).is_none());
    assert!(chrono::DateTime::from_timestamp(MAX_SECS + 1, 0).is_none());
}

#[test]
fn objects_nest_at_most_127_deep() {
    assert_eq!(print_object(Vec::new()), "{}");
    let nested = |n: usize| format!("{}{}", "[".repeat(n), "]".repeat(n));
    let ok = vec![("a".to_string(), embed_json(&nested(126)))];
    assert!(parse_object(&print_object(ok)).is_some());
    let deep = vec![("a".to_string(), embed_json(&nested(127)))];
    assert!(parse_object(&print_object(deep)).is_none());
    assert!(parse_object(&format!("{{\"a\": {}}}", nested(127))).is_none());
}

#[test]
fn chrono_range_check() {
    assert!(Timestamp { secs: 0, nanos: 0 }.is_in_range());
    assert!(Timestamp { secs: MIN_SECS, nanos: 999_999_999 }.is_in_range());
    assert!(!Timestamp { secs: MIN_SECS - 1, nanos: 0 }.is_in_range());
    assert!(!Timestamp { secs: MAX_SECS + 1, nanos: 0 }.is_in_range());
    assert!(Timestamp { secs: 59, nanos: 1_500_000_000 }.is_in_range());
    assert!(Timestamp { secs: -1, nanos: 1_500_000_000 }.is_in_range());
    assert!(!Timestamp { secs: -2, nanos: 1_500_000_000 }.is_in_range());
    assert!(!Timestamp { secs: 0, nanos: 2_000_000_000 }.is_in_range());
    for t in [Timestamp { secs: -1, nanos: 1_500_000_000 }, Timestamp { secs: 61, nanos: 1_000_000_000 }, Timestamp { secs: MIN_SECS, nanos: 5 }] {
        assert_eq!(t.is_in_range(), chrono::DateTime::from_timestamp(t.secs, t.nanos).is_some());
    }
}

use singer::json::Json;
use singer::reader::MessageReader;
use singer::stats::StatsReader;

fn obj(fields: Vec<(&str, Json)>) -> Json {
    Json::Obj(fields.into_iter().map(|(k, v)| (k.to_string(), v)).collect())
}

#[test]
fn test_stats() {
    let mut reader = StatsReader::new();
    let lines = vec![
        r#"{"type":"SCHEMA","stream":"example","schema":{"properties":{"id":{"type":"integer"}}},"key_properties":["id"]}"#.to_string(),
        r#"{"type":"RECORD","stream":"example","record":{"id":1}}"#.to_string(),
        r#"{"type":"RECORD","stream":"example","record":{"id":2}}"#.to_string(),
        r#"{"type":"STATE","value":{"bookmarks":{"example":{"updated_at":"2023-04-10T00:00:10Z"}}}}"#.to_string(),
    ];
    reader.process_lines(&lines).unwrap();

    assert_eq!(reader.stats.streams_len(), 1);
    let counter = reader.stats.counter_for("example").unwrap();
    assert_eq!(counter.schema, 1);
    assert_eq!(counter.record, 2);
    assert_eq!(reader.stats.state.count(), 1);
    assert_eq!(reader.stats.state_summary().count(), 1);
    assert_eq!(
        reader.stats.state.last_seen,
        obj(vec![(
            "bookmarks",
            obj(vec![(
                "example",
                obj(vec![("updated_at", Json::Str("2023-04-10T00:00:10Z".to_string()))])
            )])
        )])
    );
}

#[test]
fn test_stats_counts_per_stream_and_last_state() {
    let mut reader = StatsReader::new();
    let lines = vec![
        r#"{"type":"SCHEMA","stream":"a","schema":{"properties":{}}}"#.to_string(),
        r#"{"type":"SCHEMA","stream":"b","schema":{"properties":{}}}"#.to_string(),
        r#"{"type":"RECORD","stream":"a","record":{}}"#.to_string(),
        r#"{"type":"RECORD","stream":"b","record":{}}"#.to_string(),
        r#"{"type":"RECORD","stream":"b","record":{}}"#.to_string(),
        r#"{"type":"STATE","value":{"n":1}}"#.to_string(),
        r#"{"type":"ACTIVATE_VERSION","stream":"a","version":7}"#.to_string(),
        r#"{"type":"STATE","value":{"n":2}}"#.to_string(),
    ];
    reader.process_lines(&lines).unwrap();

    assert_eq!(reader.stats.streams_len(), 2);
    let a = reader.stats.counter_for("a").unwrap();
    let b = reader.stats.counter_for("b").unwrap();
    assert_eq!(a.schema + b.schema, 2);
    assert_eq!(a.record + b.record, 3);
    assert_eq!(a.record, 1);
    assert_eq!(b.record, 2);
    assert_eq!(a.activate_version, 1);
    assert_eq!(reader.stats.state.count(), 2);
    assert_eq!(reader.stats.state.last_seen, obj(vec![("n", Json::UInt(2))]));
    assert_eq!(reader.stats.counter_for("missing"), None);
}

#[test]
fn test_stats_stops_at_first_bad_line() {
    let mut reader = StatsReader::new();
    let lines = vec![
        r#"{"type":"RECORD","stream":"a","record":{}}"#.to_string(),
        "not json".to_string(),
        r#"{"type":"RECORD","stream":"a","record":{}}"#.to_string(),
    ];
    assert!(reader.process_lines(&lines).is_err());
    assert_eq!(reader.stats.counter_for("a").unwrap().record, 1);
}

#[test]
fn test_default_reader_is_empty() {
    let reader = StatsReader::default();
    assert_eq!(reader.stats.streams_len(), 0);
    assert_eq!(reader.stats.state.count(), 0);
    assert_eq!(reader.stats.state.last_seen, Json::Null);
}

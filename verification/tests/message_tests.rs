use singer::json::Json;
use singer::message::{BatchEncoding, DecodeError, Message};

fn obj(fields: Vec<(&str, Json)>) -> Json {
    Json::Obj(fields.into_iter().map(|(k, v)| (k.to_string(), v)).collect())
}

#[test]
fn test_parse_schema() {
    let message = r#"{
            "type": "SCHEMA",
            "stream": "my_stream",
            "schema": {
                "type": "object",
                "properties": {
                    "id": {
                        "type": "integer"
                    }
                }
            },
            "key_properties": ["id"]
        }"#;
    match Message::from_string(message) {
        Ok(Message::SCHEMA { stream, key_properties, bookmark_properties, schema, .. }) => {
            assert_eq!(stream, "my_stream".to_string());
            assert_eq!(key_properties, vec!["id".to_string()]);
            assert_eq!(bookmark_properties, Vec::<String>::new());
            assert_eq!(
                schema,
                obj(vec![
                    ("type", Json::Str("object".to_string())),
                    (
                        "properties",
                        obj(vec![("id", obj(vec![("type", Json::Str("integer".to_string()))]))])
                    ),
                ])
            );
        }
        _ => panic!("Failed to parse message"),
    }
}

#[test]
fn test_parse_record() {
    let message = r#"{
            "type": "RECORD",
            "stream": "my_stream",
            "record": {
                "id": 1,
                "name": "John"
            },
            "version": 1,
            "time_extracted": "2020-01-01T00:00:00Z"
        }"#;
    match Message::from_string(message) {
        Ok(Message::RECORD { stream, record, version, time_extracted }) => {
            assert_eq!(stream, "my_stream".to_string());
            assert_eq!(
                record,
                obj(vec![("id", Json::UInt(1)), ("name", Json::Str("John".to_string()))])
            );
            assert_eq!(version, 1);
            assert_eq!(time_extracted, Some("2020-01-01T00:00:00Z".to_string()));
        }
        _ => panic!("Failed to parse message"),
    }
}

#[test]
fn test_parse_activate_version() {
    let message = r#"{
            "type": "ACTIVATE_VERSION",
            "stream": "my_stream",
            "version": 1
        }"#;
    match Message::from_string(message) {
        Ok(Message::ACTIVATE_VERSION { stream, version }) => {
            assert_eq!(stream, "my_stream".to_string());
            assert_eq!(version, 1);
        }
        _ => panic!("Failed to parse message"),
    }
}

#[test]
fn test_parse_state() {
    let message = r#"{
            "type": "STATE",
            "value": {
                "bookmarks": {
                    "my_stream": {
                        "version": 1
                    }
                }
            }
        }"#;
    match Message::from_string(message) {
        Ok(Message::STATE { value }) => {
            assert_eq!(
                value,
                obj(vec![(
                    "bookmarks",
                    obj(vec![("my_stream", obj(vec![("version", Json::UInt(1))]))])
                )])
            );
        }
        _ => panic!("Failed to parse message"),
    }
}

#[test]
fn test_parse_unknown() {
    let message = r#"{
            "type": "UNKNOWN",
            "value": "unknown"
        }"#;
    match Message::from_string(message) {
        Err(DecodeError::UnknownType) => {}
        _ => panic!("Should have failed to parse message"),
    }
}

#[test]
fn test_parse_invalid_json() {
    assert_eq!(Message::from_string("not json at all"), Err(DecodeError::InvalidJson));
}

#[test]
fn test_parse_not_an_object() {
    assert_eq!(Message::from_string("[1, 2, 3]"), Err(DecodeError::NotAnObject));
}

#[test]
fn test_parse_missing_tag() {
    assert_eq!(Message::from_string(r#"{"stream": "s"}"#), Err(DecodeError::UnknownType));
}

#[test]
fn test_parse_missing_required_field() {
    assert_eq!(
        Message::from_string(r#"{"type": "RECORD", "stream": "s"}"#),
        Err(DecodeError::InvalidField)
    );
    assert_eq!(
        Message::from_string(r#"{"type": "RECORD", "record": {}}"#),
        Err(DecodeError::InvalidField)
    );
    assert_eq!(
        Message::from_string(r#"{"type": "RECORD", "stream": "s", "record": {}, "version": -1}"#),
        Err(DecodeError::InvalidField)
    );
}

#[test]
fn test_record_defaults() {
    let message = r#"{"type": "RECORD", "stream": "s", "record": {}}"#;
    match Message::from_string(message) {
        Ok(Message::RECORD { version, time_extracted, .. }) => {
            assert_eq!(version, 0);
            assert_eq!(time_extracted, None);
        }
        _ => panic!("Failed to parse message"),
    }
}

#[test]
fn test_encode_state_exact() {
    let m = Message::STATE { value: Json::Null };
    assert_eq!(m.to_string(), r#"{"type":"STATE","value":null}"#);
}

#[test]
fn test_encode_record_exact() {
    let m = Message::RECORD {
        stream: "s".to_string(),
        record: obj(vec![("id", Json::UInt(1))]),
        time_extracted: None,
        version: 2,
    };
    assert_eq!(
        m.to_string(),
        r#"{"type":"RECORD","stream":"s","record":{"id":1},"time_extracted":null,"version":2}"#
    );
}

#[test]
fn test_round_trip_all_variants() {
    let record = Message::RECORD {
        stream: "s".to_string(),
        record: obj(vec![
            ("id", Json::UInt(7)),
            ("neg", Json::Int(-3)),
            ("name", Json::Str("Ada".to_string())),
            ("flag", Json::Bool(true)),
            ("gap", Json::Null),
            ("xs", Json::Arr(vec![Json::UInt(1), Json::UInt(2)])),
        ]),
        time_extracted: Some("2020-01-01T00:00:00Z".to_string()),
        version: 3,
    };
    let schema = Message::SCHEMA {
        stream: "s".to_string(),
        schema: obj(vec![(
            "properties",
            obj(vec![("id", obj(vec![("type", Json::Str("integer".to_string()))]))]),
        )]),
        key_properties: vec!["id".to_string()],
        bookmark_properties: vec!["updated_at".to_string()],
    };
    let state = Message::STATE {
        value: obj(vec![("bookmarks", obj(vec![("s", Json::UInt(1))]))]),
    };
    let activate = Message::ACTIVATE_VERSION { stream: "s".to_string(), version: 9 };
    let batch = Message::BATCH {
        stream: "s".to_string(),
        manifest: vec!["part-1.jsonl".to_string(), "part-2.jsonl".to_string()],
        encoding: BatchEncoding::new("jsonl".to_string(), "gzip".to_string()),
    };
    for m in [record, schema, state, activate, batch] {
        let encoded = m.to_string();
        let decoded = Message::from_string(&encoded).expect("round trip decodes");
        assert_eq!(decoded, m);
    }
}

#[test]
fn test_round_trip_is_identity() {
    let m = Message::RECORD {
        stream: "my_stream".to_string(),
        record: obj(vec![("id", Json::UInt(1)), ("name", Json::Str("John".to_string()))]),
        time_extracted: None,
        version: 1,
    };
    let encoded = m.to_string();
    let decoded = Message::from_string(&encoded).unwrap();
    assert_eq!(decoded, m);
}

#[test]
fn test_tag_position_does_not_matter() {
    let message = r#"{"stream":"s","version":4,"type":"ACTIVATE_VERSION"}"#;
    match Message::from_string(message) {
        Ok(Message::ACTIVATE_VERSION { stream, version }) => {
            assert_eq!(stream, "s".to_string());
            assert_eq!(version, 4);
        }
        _ => panic!("Failed to parse message"),
    }
}

#[test]
fn test_parse_batch() {
    let message = r#"{
            "type": "BATCH",
            "stream": "s",
            "manifest": ["part-1.jsonl"],
            "encoding": {"format": "jsonl", "compression": "gzip"}
        }"#;
    match Message::from_string(message) {
        Ok(Message::BATCH { stream, manifest, encoding }) => {
            assert_eq!(stream, "s".to_string());
            assert_eq!(manifest, vec!["part-1.jsonl".to_string()]);
            assert_eq!(encoding.format(), "jsonl");
            assert_eq!(encoding.compression(), "gzip");
        }
        _ => panic!("Failed to parse message"),
    }
}

#[test]
fn test_parse_batch_bad_manifest() {
    let message = r#"{"type":"BATCH","stream":"s","manifest":[1],"encoding":{"format":"f","compression":"c"}}"#;
    assert_eq!(Message::from_string(message), Err(DecodeError::InvalidField));
    let message = r#"{"type":"BATCH","stream":"s","manifest":[],"encoding":{"format":"f"}}"#;
    assert_eq!(Message::from_string(message), Err(DecodeError::InvalidField));
}

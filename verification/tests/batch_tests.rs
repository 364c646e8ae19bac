use singer::batch::ToRecordBatch;
use singer::json::Json;
use singer::message::Message;
use singer::schema::{ColumnType, ColumnarSchema, Field};

fn obj(fields: Vec<(&str, Json)>) -> Json {
    Json::Obj(fields.into_iter().map(|(k, v)| (k.to_string(), v)).collect())
}

fn record(stream: &str, doc: Json) -> Message {
    Message::RECORD {
        stream: stream.to_string(),
        record: doc,
        time_extracted: None,
        version: 1,
    }
}

fn utf8_field(name: &str, nullable: bool) -> Field {
    Field { name: name.to_string(), data_type: ColumnType::Utf8, nullable }
}

#[test]
fn test_record_to_batch() {
    let schema = ColumnarSchema {
        fields: vec![utf8_field("id", false), utf8_field("name", true)],
    };
    let records = vec![
        record(
            "test",
            obj(vec![
                ("id", Json::Str("1".to_string())),
                ("name", Json::Str("Alice".to_string())),
            ]),
        ),
        record(
            "test",
            obj(vec![
                ("id", Json::Str("2".to_string())),
                ("name", Json::Str("Bob".to_string())),
            ]),
        ),
    ];
    let batch = records.to_record_batch(&schema);
    assert_eq!(batch.num_rows(), 2);
    assert_eq!(batch.num_columns(), 2);
}

#[test]
fn test_cells_take_text_and_wire_form() {
    let schema = ColumnarSchema {
        fields: vec![utf8_field("id", false), utf8_field("n", false)],
    };
    let records = vec![record(
        "s",
        obj(vec![("id", Json::Str("1".to_string())), ("n", Json::UInt(42))]),
    )];
    let batch = records.to_record_batch(&schema);
    assert_eq!(batch.columns[0], vec![Some("1".to_string())]);
    assert_eq!(batch.columns[1], vec![Some("42".to_string())]);
}

#[test]
fn test_missing_field_becomes_null() {
    let schema = ColumnarSchema {
        fields: vec![utf8_field("id", false), utf8_field("name", false)],
    };
    let records = vec![
        record("s", obj(vec![("id", Json::Str("1".to_string()))])),
        record(
            "s",
            obj(vec![
                ("id", Json::Str("2".to_string())),
                ("name", Json::Str("Bob".to_string())),
            ]),
        ),
    ];
    let batch = records.to_record_batch(&schema);
    assert_eq!(batch.num_rows(), 2);
    assert_eq!(batch.columns[1][0], None);
    assert_eq!(batch.columns[1][1], Some("Bob".to_string()));
}

#[test]
fn test_non_record_messages_are_skipped() {
    let schema = ColumnarSchema { fields: vec![utf8_field("id", false)] };
    let records = vec![
        Message::STATE { value: Json::Null },
        record("s", obj(vec![("id", Json::Str("1".to_string()))])),
        Message::ACTIVATE_VERSION { stream: "s".to_string(), version: 1 },
    ];
    let batch = records.to_record_batch(&schema);
    assert_eq!(batch.num_rows(), 1);
    assert_eq!(batch.columns[0], vec![Some("1".to_string())]);
}

#[test]
fn test_empty_batch() {
    let schema = ColumnarSchema { fields: vec![utf8_field("id", false)] };
    let records: Vec<Message> = vec![];
    let batch = records.to_record_batch(&schema);
    assert_eq!(batch.num_rows(), 0);
    assert_eq!(batch.num_columns(), 1);
}

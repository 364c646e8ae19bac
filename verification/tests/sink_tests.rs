use arrow::array::{Array, StringArray};
use singer::json::Json;
use singer::message::Message;
use singer::schema::Error;
use singer::sink::ParquetSink;
use singer::target::ParquetTarget;

fn obj(fields: Vec<(&str, Json)>) -> Json {
    Json::Obj(fields.into_iter().map(|(k, v)| (k.to_string(), v)).collect())
}

fn string_schema(stream: &str, names: Vec<&str>) -> Message {
    Message::SCHEMA {
        stream: stream.to_string(),
        schema: obj(vec![
            ("type", Json::Str("object".to_string())),
            (
                "properties",
                Json::Obj(
                    names
                        .into_iter()
                        .map(|n| {
                            (n.to_string(), obj(vec![("type", Json::Str("string".to_string()))]))
                        })
                        .collect(),
                ),
            ),
        ]),
        key_properties: vec!["id".to_string()],
        bookmark_properties: vec![],
    }
}

fn record(stream: &str, doc: Json) -> Message {
    Message::RECORD {
        stream: stream.to_string(),
        record: doc,
        time_extracted: None,
        version: 1,
    }
}

fn read_rows(path: &std::path::Path) -> Vec<arrow::record_batch::RecordBatch> {
    let data = fs_err::read(path).unwrap();
    let reader = parquet::arrow::arrow_reader::ParquetRecordBatchReaderBuilder::try_new(
        bytes::Bytes::from(data),
    )
    .unwrap()
    .build()
    .unwrap();
    reader.map(|b| b.unwrap()).collect()
}

#[test]
fn test_parquet_sink() {
    let temp_dir = tempfile::tempdir().unwrap();
    let base_dir = temp_dir.path().to_path_buf();

    let schema_message = string_schema("test", vec!["id", "name"]);
    let mut sink = ParquetSink::new(&schema_message, base_dir.to_str().unwrap(), 2).unwrap();

    sink.add_record(record(
        "test",
        obj(vec![
            ("id", Json::Str("1".to_string())),
            ("name", Json::Str("Alice".to_string())),
        ]),
    ))
    .unwrap();

    sink.add_record(record(
        "test",
        obj(vec![
            ("id", Json::Str("2".to_string())),
            ("name", Json::Str("Bob".to_string())),
        ]),
    ))
    .unwrap();

    sink.flush().unwrap();

    let output_path = base_dir.join("test.parquet");
    assert!(output_path.exists());
    assert!(output_path.metadata().unwrap().len() > 0);
}

#[test]
fn test_parquet_target() {
    let temp_dir = tempfile::tempdir().unwrap();
    let output_path = temp_dir.path().join("test.parquet");

    let schema_message = string_schema("test", vec!["id", "name"]);
    let mut target = ParquetTarget::new(
        &schema_message,
        output_path.to_str().unwrap().to_string(),
        2,
    )
    .unwrap();

    target
        .add_record(record(
            "test",
            obj(vec![
                ("id", Json::Str("1".to_string())),
                ("name", Json::Str("Alice".to_string())),
            ]),
        ))
        .unwrap();

    target
        .add_record(record(
            "test",
            obj(vec![
                ("id", Json::Str("2".to_string())),
                ("name", Json::Str("Bob".to_string())),
            ]),
        ))
        .unwrap();

    target.flush().unwrap();

    assert!(output_path.exists());
    assert!(output_path.metadata().unwrap().len() > 0);
}

#[test]
fn test_pending_stays_below_batch_size() {
    let temp_dir = tempfile::tempdir().unwrap();
    let base_dir = temp_dir.path().to_path_buf();

    let schema_message = string_schema("s", vec!["id"]);
    let mut sink = ParquetSink::new(&schema_message, base_dir.to_str().unwrap(), 3).unwrap();

    sink.add_record(record("s", obj(vec![("id", Json::Str("1".to_string()))]))).unwrap();
    sink.add_record(record("s", obj(vec![("id", Json::Str("2".to_string()))]))).unwrap();

    assert_eq!(sink.pending_len(), 2);
    assert!(!base_dir.join("s.parquet").exists());

    sink.flush().unwrap();
    assert_eq!(sink.pending_len(), 0);
    assert!(base_dir.join("s.parquet").exists());
}

#[test]
fn test_reaching_batch_size_flushes() {
    let temp_dir = tempfile::tempdir().unwrap();
    let base_dir = temp_dir.path().to_path_buf();

    let schema_message = string_schema("s", vec!["id"]);
    let mut sink = ParquetSink::new(&schema_message, base_dir.to_str().unwrap(), 2).unwrap();

    sink.add_record(record("s", obj(vec![("id", Json::Str("1".to_string()))]))).unwrap();
    assert!(!base_dir.join("s.parquet").exists());
    sink.add_record(record("s", obj(vec![("id", Json::Str("2".to_string()))]))).unwrap();

    let path = base_dir.join("s.parquet");
    assert!(path.exists());
    assert_eq!(sink.pending_len(), 0);
    let batches = read_rows(&path);
    let rows: usize = batches.iter().map(|b| b.num_rows()).sum();
    assert_eq!(rows, 2);
}

#[test]
fn test_flush_on_empty_is_noop() {
    let temp_dir = tempfile::tempdir().unwrap();
    let base_dir = temp_dir.path().to_path_buf();

    let schema_message = string_schema("s", vec!["id"]);
    let mut sink = ParquetSink::new(&schema_message, base_dir.to_str().unwrap(), 2).unwrap();

    sink.flush().unwrap();
    assert!(!base_dir.join("s.parquet").exists());
}

#[test]
fn test_non_record_is_ignored() {
    let temp_dir = tempfile::tempdir().unwrap();
    let base_dir = temp_dir.path().to_path_buf();

    let schema_message = string_schema("s", vec!["id"]);
    let mut sink = ParquetSink::new(&schema_message, base_dir.to_str().unwrap(), 1).unwrap();

    sink.add_record(Message::STATE { value: Json::Null }).unwrap();
    sink.add_record(Message::ACTIVATE_VERSION { stream: "s".to_string(), version: 1 }).unwrap();
    assert_eq!(sink.pending_len(), 0);
    assert!(!base_dir.join("s.parquet").exists());
}

#[test]
fn test_end_to_end_two_rows() {
    let temp_dir = tempfile::tempdir().unwrap();
    let base_dir = temp_dir.path().to_path_buf();

    let lines = [
        r#"{"type":"SCHEMA","stream":"s","schema":{"properties":{"id":{"type":"string"}}}}"#,
        r#"{"type":"RECORD","stream":"s","record":{"id":"1"}}"#,
        r#"{"type":"RECORD","stream":"s","record":{"id":"2"}}"#,
    ];
    let schema_message = Message::from_string(lines[0]).unwrap();
    let mut sink = ParquetSink::new(&schema_message, base_dir.to_str().unwrap(), 2).unwrap();
    for line in &lines[1..] {
        sink.add_record(Message::from_string(line).unwrap()).unwrap();
    }

    let entries: Vec<_> = fs_err::read_dir(&base_dir).unwrap().map(|e| e.unwrap()).collect();
    assert_eq!(entries.len(), 1);
    let path = base_dir.join("s.parquet");
    assert!(path.exists());

    let batches = read_rows(&path);
    let rows: usize = batches.iter().map(|b| b.num_rows()).sum();
    assert_eq!(rows, 2);

    let mut values: Vec<String> = Vec::new();
    for b in &batches {
        assert_eq!(b.schema().field(0).name(), "id");
        let col = b.column(0).as_any().downcast_ref::<StringArray>().unwrap();
        for i in 0..col.len() {
            values.push(col.value(i).to_string());
        }
    }
    assert_eq!(values, vec!["1".to_string(), "2".to_string()]);
}

#[test]
fn test_missing_field_null_is_refused_by_codec() {
    // A record that omits a schema-declared field yields a null cell, and
    // every translated column is non-nullable, so the codec refuses the
    // batch and the pending records are kept.
    let temp_dir = tempfile::tempdir().unwrap();
    let base_dir = temp_dir.path().to_path_buf();

    let schema_message = string_schema("s", vec!["id", "name"]);
    let mut sink = ParquetSink::new(&schema_message, base_dir.to_str().unwrap(), 2).unwrap();
    sink.add_record(record("s", obj(vec![("id", Json::Str("1".to_string()))]))).unwrap();
    let r = sink.add_record(record(
        "s",
        obj(vec![
            ("id", Json::Str("2".to_string())),
            ("name", Json::Str("Bob".to_string())),
        ]),
    ));
    assert_eq!(r, Err(Error::Codec));
    assert_eq!(sink.pending_len(), 2);
}

#[test]
fn test_io_error_keeps_pending() {
    let schema_message = string_schema("s", vec!["id"]);
    let mut sink =
        ParquetSink::new(&schema_message, "/nonexistent_dir_for_sink_test", 2).unwrap();
    sink.add_record(record("s", obj(vec![("id", Json::Str("1".to_string()))]))).unwrap();
    let r = sink.add_record(record("s", obj(vec![("id", Json::Str("2".to_string()))])));
    assert_eq!(r, Err(Error::Io));
    assert_eq!(sink.pending_len(), 2);
    assert_eq!(sink.flush(), Err(Error::Io));
    assert_eq!(sink.pending_len(), 2);
}

#[test]
fn test_codec_error_on_non_string_schema() {
    let temp_dir = tempfile::tempdir().unwrap();
    let base_dir = temp_dir.path().to_path_buf();

    let schema_message = Message::SCHEMA {
        stream: "s".to_string(),
        schema: obj(vec![(
            "properties",
            obj(vec![("id", obj(vec![("type", Json::Str("integer".to_string()))]))]),
        )]),
        key_properties: vec![],
        bookmark_properties: vec![],
    };
    let mut sink = ParquetSink::new(&schema_message, base_dir.to_str().unwrap(), 4).unwrap();
    sink.add_record(record("s", obj(vec![("id", Json::UInt(1))]))).unwrap();
    assert_eq!(sink.flush(), Err(Error::Codec));
    assert_eq!(sink.pending_len(), 1);
}

use singer::json::Json;
use singer::message::Message;
use singer::schema::{ColumnType, Error, json_type_to_arrow, singer_schema_to_arrow};

fn obj(fields: Vec<(&str, Json)>) -> Json {
    Json::Obj(fields.into_iter().map(|(k, v)| (k.to_string(), v)).collect())
}

fn schema_message(props: Vec<(&str, &str)>) -> Message {
    Message::SCHEMA {
        stream: "s".to_string(),
        schema: obj(vec![(
            "properties",
            Json::Obj(
                props
                    .into_iter()
                    .map(|(name, ty)| {
                        (name.to_string(), obj(vec![("type", Json::Str(ty.to_string()))]))
                    })
                    .collect(),
            ),
        )]),
        key_properties: vec![],
        bookmark_properties: vec![],
    }
}

#[test]
fn test_json_type_to_arrow() {
    assert_eq!(
        json_type_to_arrow(&Json::Str("string".to_string())).unwrap(),
        ColumnType::Utf8
    );
    assert_eq!(
        json_type_to_arrow(&Json::Str("integer".to_string())).unwrap(),
        ColumnType::Int64
    );
    assert_eq!(
        json_type_to_arrow(&Json::Str("number".to_string())).unwrap(),
        ColumnType::Float64
    );
}

#[test]
fn test_json_type_boolean_and_errors() {
    assert_eq!(
        json_type_to_arrow(&Json::Str("boolean".to_string())).unwrap(),
        ColumnType::Boolean
    );
    assert_eq!(
        json_type_to_arrow(&Json::Str("date-time".to_string())),
        Err(Error::Schema)
    );
    assert_eq!(json_type_to_arrow(&Json::UInt(1)), Err(Error::Schema));
}

#[test]
fn test_translate_two_fields() {
    let msg = schema_message(vec![("id", "integer"), ("name", "string")]);
    let schema = singer_schema_to_arrow(&msg).unwrap();
    assert_eq!(schema.fields.len(), 2);
    assert_eq!(schema.fields[0].name, "id".to_string());
    assert_eq!(schema.fields[0].data_type, ColumnType::Int64);
    assert!(!schema.fields[0].nullable);
    assert_eq!(schema.fields[1].name, "name".to_string());
    assert_eq!(schema.fields[1].data_type, ColumnType::Utf8);
    assert!(!schema.fields[1].nullable);
}

#[test]
fn test_translate_wrong_message_kind() {
    let msg = Message::STATE { value: Json::Null };
    assert_eq!(singer_schema_to_arrow(&msg), Err(Error::WrongMessageKind));
}

#[test]
fn test_translate_missing_properties() {
    let msg = Message::SCHEMA {
        stream: "s".to_string(),
        schema: obj(vec![("type", Json::Str("object".to_string()))]),
        key_properties: vec![],
        bookmark_properties: vec![],
    };
    assert_eq!(singer_schema_to_arrow(&msg), Err(Error::Schema));
}

#[test]
fn test_translate_property_without_type() {
    let msg = Message::SCHEMA {
        stream: "s".to_string(),
        schema: obj(vec![("properties", obj(vec![("id", obj(vec![]))]))]),
        key_properties: vec![],
        bookmark_properties: vec![],
    };
    assert_eq!(singer_schema_to_arrow(&msg), Err(Error::Schema));
}

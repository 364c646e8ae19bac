//! The protocol's message model: a closed, tagged set of event variants
//! and their wire codec.
//!
//! A message travels as one compact JSON object per line, discriminated
//! by its `type` field.  `from_string` and `to_string` are inverses for
//! every well-formed message; decoding rejects unknown tags and malformed
//! required fields with a precise `DecodeError`.

use vstd::prelude::*;

use crate::json::{
    Json, JsonV, lookup, json_parse_spec, json_parse, json_write, json_text, obj_get,
    view_elems, view_fields, lemma_view_elems, lemma_view_fields, distinct_keys,
    lemma_wf_elems_at, lemma_wf_fields_at, MAX_DEPTH,
};

verus! {

/// Why a line failed to decode into a message.
#[derive(Debug, Clone, Copy, PartialEq, Eq, Structural)]
pub enum DecodeError {
    /// The line is not valid JSON.
    InvalidJson,
    /// The line is valid JSON but not an object.
    NotAnObject,
    /// The `type` field is missing, not a string, or not a known tag.
    UnknownType,
    /// A required field of the resolved variant is missing or has the
    /// wrong JSON type.
    InvalidField,
}

/// How the records of an out-of-band bulk batch are stored.
#[derive(Debug, PartialEq)]
pub struct BatchEncoding {
    /// The serialization format of the batch files.
    format: String,
    /// The compression applied to the batch files.
    compression: String,
}

/// The mathematical view of a `BatchEncoding`.
pub struct BatchEncodingV {
    pub format: Seq<char>,
    pub compression: Seq<char>,
}

impl View for BatchEncoding {
    type V = BatchEncodingV;

    closed spec fn view(&self) -> BatchEncodingV {
        BatchEncodingV { format: self.format@, compression: self.compression@ }
    }
}

impl BatchEncoding {
    pub fn new(format: String, compression: String) -> (r: BatchEncoding)
        ensures
            r@ == (BatchEncodingV { format: format@, compression: compression@ }),
    {
        BatchEncoding { format, compression }
    }

    /// The serialization format of the batch files.
    pub fn format(&self) -> (r: &String)
        ensures
            r@ == self@.format,
    {
        &self.format
    }

    /// The compression applied to the batch files.
    pub fn compression(&self) -> (r: &String)
        ensures
            r@ == self@.compression,
    {
        &self.compression
    }
}

/// A protocol message.  The wire form is one JSON object whose `type`
/// field names the variant.
#[derive(Debug, PartialEq)]
pub enum Message {
    #[allow(non_camel_case_types)]
    ACTIVATE_VERSION { stream: String, version: u64 },
    BATCH { stream: String, manifest: Vec<String>, encoding: BatchEncoding },
    RECORD { stream: String, record: Json, time_extracted: Option<String>, version: u64 },
    SCHEMA {
        stream: String,
        schema: Json,
        key_properties: Vec<String>,
        bookmark_properties: Vec<String>,
    },
    STATE { value: Json },
}

/// The mathematical view of a `Message`.
pub enum MessageV {
    ActivateVersion { stream: Seq<char>, version: u64 },
    Batch { stream: Seq<char>, manifest: Seq<Seq<char>>, encoding: BatchEncodingV },
    Record { stream: Seq<char>, record: JsonV, time_extracted: Option<Seq<char>>, version: u64 },
    Schema {
        stream: Seq<char>,
        schema: JsonV,
        key_properties: Seq<Seq<char>>,
        bookmark_properties: Seq<Seq<char>>,
    },
    State { value: JsonV },
}

/// The views of a list of plain strings.
pub open spec fn view_strings(s: Seq<String>) -> Seq<Seq<char>> {
    Seq::new(s.len(), |i: int| s[i]@)
}

/// The view of an optional plain string.
pub open spec fn view_opt_string(o: Option<String>) -> Option<Seq<char>> {
    match o {
        Option::None => None,
        Option::Some(s) => Some(s@),
    }
}

impl View for Message {
    type V = MessageV;

    open spec fn view(&self) -> MessageV {
        match self {
            Message::ACTIVATE_VERSION { stream, version } => MessageV::ActivateVersion {
                stream: stream@,
                version: *version,
            },
            Message::BATCH { stream, manifest, encoding } => MessageV::Batch {
                stream: stream@,
                manifest: view_strings(manifest@),
                encoding: encoding@,
            },
            Message::RECORD { stream, record, time_extracted, version } => MessageV::Record {
                stream: stream@,
                record: record@,
                time_extracted: view_opt_string(*time_extracted),
                version: *version,
            },
            Message::SCHEMA { stream, schema, key_properties, bookmark_properties } => {
                MessageV::Schema {
                    stream: stream@,
                    schema: schema@,
                    key_properties: view_strings(key_properties@),
                    bookmark_properties: view_strings(bookmark_properties@),
                }
            },
            Message::STATE { value } => MessageV::State { value: value@ },
        }
    }
}

impl MessageV {
    /// A message whose embedded documents are well formed, so that its
    /// wire line decodes back to the same message.
    pub open spec fn wf(self) -> bool {
        match self {
            MessageV::Record { record, .. } => record.doc_wf(),
            MessageV::Schema { schema, .. } => schema.doc_wf(),
            MessageV::State { value } => value.doc_wf(),
            _ => true,
        }
    }
}

// ---------------------------------------------------------------------
// The wire shape of each variant.
// ---------------------------------------------------------------------

/// Strings as JSON string values.
pub open spec fn strs_json(s: Seq<Seq<char>>) -> Seq<JsonV> {
    s.map_values(|x: Seq<char>| JsonV::Str(x))
}

/// The JSON object that carries a message on the wire: the `type` tag
/// first, then the variant's fields in a fixed order.  An absent
/// extraction time travels as an explicit null.
pub open spec fn msg_json(m: MessageV) -> JsonV {
    match m {
        MessageV::ActivateVersion { stream, version } => JsonV::Obj(
            seq![
                ("type"@, JsonV::Str("ACTIVATE_VERSION"@)),
                ("stream"@, JsonV::Str(stream)),
                ("version"@, JsonV::Int(version as int)),
            ],
        ),
        MessageV::Batch { stream, manifest, encoding } => JsonV::Obj(
            seq![
                ("type"@, JsonV::Str("BATCH"@)),
                ("stream"@, JsonV::Str(stream)),
                ("manifest"@, JsonV::Arr(strs_json(manifest))),
                (
                    "encoding"@,
                    JsonV::Obj(
                        seq![
                            ("format"@, JsonV::Str(encoding.format)),
                            ("compression"@, JsonV::Str(encoding.compression)),
                        ],
                    ),
                ),
            ],
        ),
        MessageV::Record { stream, record, time_extracted, version } => JsonV::Obj(
            seq![
                ("type"@, JsonV::Str("RECORD"@)),
                ("stream"@, JsonV::Str(stream)),
                ("record"@, record),
                (
                    "time_extracted"@,
                    match time_extracted {
                        Option::None => JsonV::Null,
                        Option::Some(s) => JsonV::Str(s),
                    },
                ),
                ("version"@, JsonV::Int(version as int)),
            ],
        ),
        MessageV::Schema { stream, schema, key_properties, bookmark_properties } => JsonV::Obj(
            seq![
                ("type"@, JsonV::Str("SCHEMA"@)),
                ("stream"@, JsonV::Str(stream)),
                ("schema"@, schema),
                ("key_properties"@, JsonV::Arr(strs_json(key_properties))),
                ("bookmark_properties"@, JsonV::Arr(strs_json(bookmark_properties))),
            ],
        ),
        MessageV::State { value } => JsonV::Obj(
            seq![("type"@, JsonV::Str("STATE"@)), ("value"@, value)],
        ),
    }
}

// ---------------------------------------------------------------------
// Decoding a JSON document into a message.
// ---------------------------------------------------------------------

/// Every element of `a` is a JSON string.
pub open spec fn all_strings(a: Seq<JsonV>) -> bool {
    forall|i: int| 0 <= i < a.len() ==> a[i] is Str
}

/// The characters of each JSON string in `a`.
pub open spec fn strings_of(a: Seq<JsonV>) -> Seq<Seq<char>> {
    a.map_values(|x: JsonV| x->Str_0)
}

/// An optional string field: absent and null both mean "none".
pub open spec fn opt_text(x: Option<JsonV>) -> Result<Option<Seq<char>>, DecodeError> {
    match x {
        Option::None => Ok(None),
        Option::Some(JsonV::Null) => Ok(None),
        Option::Some(JsonV::Str(s)) => Ok(Some(s)),
        Option::Some(_) => Err(DecodeError::InvalidField),
    }
}

/// An optional version field: absent means zero; present, it must be an
/// unsigned 64-bit integer.
pub open spec fn opt_version(x: Option<JsonV>) -> Result<u64, DecodeError> {
    match x {
        Option::None => Ok(0u64),
        Option::Some(JsonV::Int(i)) => if 0 <= i <= u64::MAX as int {
            Ok(i as u64)
        } else {
            Err(DecodeError::InvalidField)
        },
        Option::Some(_) => Err(DecodeError::InvalidField),
    }
}

/// A required version field.
pub open spec fn req_version(x: Option<JsonV>) -> Result<u64, DecodeError> {
    match x {
        Option::Some(JsonV::Int(i)) => if 0 <= i <= u64::MAX as int {
            Ok(i as u64)
        } else {
            Err(DecodeError::InvalidField)
        },
        _ => Err(DecodeError::InvalidField),
    }
}

/// An optional list-of-strings field: absent means the empty list.
pub open spec fn opt_str_list(x: Option<JsonV>) -> Result<Seq<Seq<char>>, DecodeError> {
    match x {
        Option::None => Ok(Seq::empty()),
        Option::Some(JsonV::Arr(a)) => if all_strings(a) {
            Ok(strings_of(a))
        } else {
            Err(DecodeError::InvalidField)
        },
        Option::Some(_) => Err(DecodeError::InvalidField),
    }
}

/// A required list-of-strings field.
pub open spec fn req_str_list(x: Option<JsonV>) -> Result<Seq<Seq<char>>, DecodeError> {
    match x {
        Option::Some(JsonV::Arr(a)) => if all_strings(a) {
            Ok(strings_of(a))
        } else {
            Err(DecodeError::InvalidField)
        },
        _ => Err(DecodeError::InvalidField),
    }
}

/// A required batch-encoding field: an object carrying string fields
/// `format` and `compression`.
pub open spec fn encoding_of(x: Option<JsonV>) -> Result<BatchEncodingV, DecodeError> {
    match x {
        Option::Some(JsonV::Obj(e)) => match (lookup(e, "format"@), lookup(e, "compression"@)) {
            (Option::Some(JsonV::Str(f)), Option::Some(JsonV::Str(c))) => Ok(
                BatchEncodingV { format: f, compression: c },
            ),
            _ => Err(DecodeError::InvalidField),
        },
        _ => Err(DecodeError::InvalidField),
    }
}

/// A required string field.
pub open spec fn req_text(x: Option<JsonV>) -> Result<Seq<char>, DecodeError> {
    match x {
        Option::Some(JsonV::Str(s)) => Ok(s),
        _ => Err(DecodeError::InvalidField),
    }
}

pub open spec fn record_of(o: Seq<(Seq<char>, JsonV)>) -> Result<MessageV, DecodeError> {
    match req_text(lookup(o, "stream"@)) {
        Ok(stream) => match lookup(o, "record"@) {
            Option::Some(record) => match opt_text(lookup(o, "time_extracted"@)) {
                Ok(te) => match opt_version(lookup(o, "version"@)) {
                    Ok(v) => Ok(
                        MessageV::Record { stream, record, time_extracted: te, version: v },
                    ),
                    Err(e) => Err(e),
                },
                Err(e) => Err(e),
            },
            Option::None => Err(DecodeError::InvalidField),
        },
        Err(e) => Err(e),
    }
}

pub open spec fn schema_of(o: Seq<(Seq<char>, JsonV)>) -> Result<MessageV, DecodeError> {
    match req_text(lookup(o, "stream"@)) {
        Ok(stream) => match lookup(o, "schema"@) {
            Option::Some(schema) => match opt_str_list(lookup(o, "key_properties"@)) {
                Ok(kp) => match opt_str_list(lookup(o, "bookmark_properties"@)) {
                    Ok(bp) => Ok(
                        MessageV::Schema {
                            stream,
                            schema,
                            key_properties: kp,
                            bookmark_properties: bp,
                        },
                    ),
                    Err(e) => Err(e),
                },
                Err(e) => Err(e),
            },
            Option::None => Err(DecodeError::InvalidField),
        },
        Err(e) => Err(e),
    }
}

pub open spec fn state_of(o: Seq<(Seq<char>, JsonV)>) -> Result<MessageV, DecodeError> {
    match lookup(o, "value"@) {
        Option::Some(value) => Ok(MessageV::State { value }),
        Option::None => Err(DecodeError::InvalidField),
    }
}

pub open spec fn activate_version_of(o: Seq<(Seq<char>, JsonV)>) -> Result<
    MessageV,
    DecodeError,
> {
    match req_text(lookup(o, "stream"@)) {
        Ok(stream) => match req_version(lookup(o, "version"@)) {
            Ok(v) => Ok(MessageV::ActivateVersion { stream, version: v }),
            Err(e) => Err(e),
        },
        Err(e) => Err(e),
    }
}

pub open spec fn batch_of(o: Seq<(Seq<char>, JsonV)>) -> Result<MessageV, DecodeError> {
    match req_text(lookup(o, "stream"@)) {
        Ok(stream) => match req_str_list(lookup(o, "manifest"@)) {
            Ok(manifest) => match encoding_of(lookup(o, "encoding"@)) {
                Ok(encoding) => Ok(MessageV::Batch { stream, manifest, encoding }),
                Err(e) => Err(e),
            },
            Err(e) => Err(e),
        },
        Err(e) => Err(e),
    }
}

/// The message carried by a JSON document, or the exact reason there is
/// none: the document must be an object, its `type` field must name one
/// of the five variants, and the variant's required fields must be
/// present with the right JSON types.  Unknown fields are ignored.
pub open spec fn msg_of_json(j: JsonV) -> Result<MessageV, DecodeError> {
    match j {
        JsonV::Obj(o) => match lookup(o, "type"@) {
            Option::Some(JsonV::Str(t)) => if t == "RECORD"@ {
                record_of(o)
            } else if t == "SCHEMA"@ {
                schema_of(o)
            } else if t == "STATE"@ {
                state_of(o)
            } else if t == "ACTIVATE_VERSION"@ {
                activate_version_of(o)
            } else if t == "BATCH"@ {
                batch_of(o)
            } else {
                Err(DecodeError::UnknownType)
            },
            Option::Some(_) => Err(DecodeError::UnknownType),
            Option::None => Err(DecodeError::UnknownType),
        },
        _ => Err(DecodeError::NotAnObject),
    }
}

/// What decoding one line of text yields: a parse failure, or the
/// message carried by the parsed document.
pub open spec fn decode_spec(s: Seq<char>) -> Result<MessageV, DecodeError> {
    match json_parse_spec(s) {
        Option::None => Err(DecodeError::InvalidJson),
        Option::Some(j) => msg_of_json(j),
    }
}

/// The view of an executable decode result.
pub open spec fn res_view(r: Result<Message, DecodeError>) -> Result<MessageV, DecodeError> {
    match r {
        Ok(m) => Ok(m@),
        Err(e) => Err(e),
    }
}

// ---------------------------------------------------------------------
// Executable decoding.
// ---------------------------------------------------------------------

/// Reads a list of strings out of a JSON array's elements.
#[verifier::loop_isolation(false)]
fn str_list(arr: &Vec<Json>) -> (r: Result<Vec<String>, DecodeError>)
    ensures
        match r {
            Ok(v) => all_strings(view_elems(arr@)) && view_strings(v@) == strings_of(
                view_elems(arr@),
            ),
            Err(e) => !all_strings(view_elems(arr@)) && e == DecodeError::InvalidField,
        },
{
    proof {
        lemma_view_elems(arr@);
    }
    let mut out: Vec<String> = Vec::new();
    let mut i: usize = 0;
    while i < arr.len()
        invariant
            0 <= i <= arr.len(),
            out@.len() == i,
            forall|k: int| 0 <= k < i ==> (#[trigger] view_elems(arr@)[k]) is Str,
            forall|k: int|
                0 <= k < i ==> out@[k]@ == (#[trigger] view_elems(arr@)[k])->Str_0,
        decreases arr.len() - i,
    {
        proof {
            assert(view_elems(arr@)[i as int] == arr@[i as int]@);
        }
        match &arr[i] {
            Json::Str(s) => {
                let t = s.clone();
                proof {
                    assert(arr@[i as int]@ == JsonV::Str(t@));
                }
                let ghost prev = out@;
                out.push(t);
                proof {
                    assert forall|k: int|
                        0 <= k < i + 1 implies out@[k]@ == (#[trigger] view_elems(
                        arr@,
                    )[k])->Str_0 by {
                        if k < i {
                            assert(out@[k] == prev[k]);
                        } else {
                            assert(out@[k]@ == view_elems(arr@)[i as int]->Str_0);
                        }
                    }
                }
            },
            _ => {
                proof {
                    assert(!(view_elems(arr@)[i as int] is Str));
                }
                return Err(DecodeError::InvalidField);
            },
        }
        i = i + 1;
    }
    proof {
        assert(view_strings(out@) =~= strings_of(view_elems(arr@)));
    }
    Ok(out)
}

fn record_from(fields: &Vec<(String, Json)>) -> (r: Result<Message, DecodeError>)
    ensures
        res_view(r) == record_of(view_fields(fields@)),
{
    let stream: String = match obj_get(fields, &"stream".to_owned()) {
        Option::Some(Json::Str(s)) => s.clone(),
        _ => {
            return Err(DecodeError::InvalidField);
        },
    };
    let record: Json = match obj_get(fields, &"record".to_owned()) {
        Option::Some(d) => d.deep_copy(),
        Option::None => {
            return Err(DecodeError::InvalidField);
        },
    };
    let time_extracted: Option<String> = match obj_get(fields, &"time_extracted".to_owned()) {
        Option::None => None,
        Option::Some(Json::Null) => None,
        Option::Some(Json::Str(s)) => Some(s.clone()),
        Option::Some(_) => {
            return Err(DecodeError::InvalidField);
        },
    };
    let version: u64 = match obj_get(fields, &"version".to_owned()) {
        Option::None => 0,
        Option::Some(Json::UInt(u)) => *u,
        Option::Some(Json::Int(i)) => {
            if *i >= 0 {
                *i as u64
            } else {
                return Err(DecodeError::InvalidField);
            }
        },
        Option::Some(_) => {
            return Err(DecodeError::InvalidField);
        },
    };
    Ok(Message::RECORD { stream, record, time_extracted, version })
}

fn schema_from(fields: &Vec<(String, Json)>) -> (r: Result<Message, DecodeError>)
    ensures
        res_view(r) == schema_of(view_fields(fields@)),
{
    let stream: String = match obj_get(fields, &"stream".to_owned()) {
        Option::Some(Json::Str(s)) => s.clone(),
        _ => {
            return Err(DecodeError::InvalidField);
        },
    };
    let schema: Json = match obj_get(fields, &"schema".to_owned()) {
        Option::Some(d) => d.deep_copy(),
        Option::None => {
            return Err(DecodeError::InvalidField);
        },
    };
    let key_properties: Vec<String> = match obj_get(fields, &"key_properties".to_owned()) {
        Option::None => Vec::new(),
        Option::Some(Json::Arr(a)) => match str_list(a) {
            Ok(v) => v,
            Err(e) => {
                return Err(e);
            },
        },
        Option::Some(_) => {
            return Err(DecodeError::InvalidField);
        },
    };
    let bookmark_properties: Vec<String> = match obj_get(
        fields,
        &"bookmark_properties".to_owned(),
    ) {
        Option::None => Vec::new(),
        Option::Some(Json::Arr(a)) => match str_list(a) {
            Ok(v) => v,
            Err(e) => {
                return Err(e);
            },
        },
        Option::Some(_) => {
            return Err(DecodeError::InvalidField);
        },
    };
    proof {
        assert(view_strings(Seq::<String>::empty()) =~= Seq::<Seq<char>>::empty());
    }
    Ok(Message::SCHEMA { stream, schema, key_properties, bookmark_properties })
}

fn state_from(fields: &Vec<(String, Json)>) -> (r: Result<Message, DecodeError>)
    ensures
        res_view(r) == state_of(view_fields(fields@)),
{
    match obj_get(fields, &"value".to_owned()) {
        Option::Some(d) => Ok(Message::STATE { value: d.deep_copy() }),
        Option::None => Err(DecodeError::InvalidField),
    }
}

fn activate_version_from(fields: &Vec<(String, Json)>) -> (r: Result<Message, DecodeError>)
    ensures
        res_view(r) == activate_version_of(view_fields(fields@)),
{
    let stream: String = match obj_get(fields, &"stream".to_owned()) {
        Option::Some(Json::Str(s)) => s.clone(),
        _ => {
            return Err(DecodeError::InvalidField);
        },
    };
    let version: u64 = match obj_get(fields, &"version".to_owned()) {
        Option::Some(Json::UInt(u)) => *u,
        Option::Some(Json::Int(i)) => {
            if *i >= 0 {
                *i as u64
            } else {
                return Err(DecodeError::InvalidField);
            }
        },
        _ => {
            return Err(DecodeError::InvalidField);
        },
    };
    Ok(Message::ACTIVATE_VERSION { stream, version })
}

fn batch_from(fields: &Vec<(String, Json)>) -> (r: Result<Message, DecodeError>)
    ensures
        res_view(r) == batch_of(view_fields(fields@)),
{
    let stream: String = match obj_get(fields, &"stream".to_owned()) {
        Option::Some(Json::Str(s)) => s.clone(),
        _ => {
            return Err(DecodeError::InvalidField);
        },
    };
    let manifest: Vec<String> = match obj_get(fields, &"manifest".to_owned()) {
        Option::Some(Json::Arr(a)) => match str_list(a) {
            Ok(v) => v,
            Err(e) => {
                return Err(e);
            },
        },
        _ => {
            return Err(DecodeError::InvalidField);
        },
    };
    let encoding: BatchEncoding = match obj_get(fields, &"encoding".to_owned()) {
        Option::Some(Json::Obj(e)) => {
            let format: String = match obj_get(e, &"format".to_owned()) {
                Option::Some(Json::Str(s)) => s.clone(),
                _ => {
                    return Err(DecodeError::InvalidField);
                },
            };
            let compression: String = match obj_get(e, &"compression".to_owned()) {
                Option::Some(Json::Str(s)) => s.clone(),
                _ => {
                    return Err(DecodeError::InvalidField);
                },
            };
            BatchEncoding { format, compression }
        },
        _ => {
            return Err(DecodeError::InvalidField);
        },
    };
    Ok(Message::BATCH { stream, manifest, encoding })
}

/// Decodes the message carried by a JSON document, mirroring
/// `msg_of_json` on the document's view.
pub fn message_of_json(j: &Json) -> (r: Result<Message, DecodeError>)
    ensures
        res_view(r) == msg_of_json(j@),
{
    let fields = match j {
        Json::Obj(f) => f,
        _ => {
            return Err(DecodeError::NotAnObject);
        },
    };
    let tag: String = match obj_get(fields, &"type".to_owned()) {
        Option::Some(Json::Str(t)) => t.clone(),
        Option::Some(_) => {
            return Err(DecodeError::UnknownType);
        },
        Option::None => {
            return Err(DecodeError::UnknownType);
        },
    };
    if tag == "RECORD".to_owned() {
        record_from(fields)
    } else if tag == "SCHEMA".to_owned() {
        schema_from(fields)
    } else if tag == "STATE".to_owned() {
        state_from(fields)
    } else if tag == "ACTIVATE_VERSION".to_owned() {
        activate_version_from(fields)
    } else if tag == "BATCH".to_owned() {
        batch_from(fields)
    } else {
        Err(DecodeError::UnknownType)
    }
}

impl Message {
    /// Decodes one line of text into a message; fails with the exact
    /// reason when the line is not valid JSON, is not an object, carries
    /// an unknown `type`, or lacks a well-typed required field.
    pub fn from_string(message: &str) -> (r: Result<Message, DecodeError>)
        ensures
            res_view(r) == decode_spec(message@),
    {
        match json_parse(message) {
            Option::Some(j) => message_of_json(&j),
            Option::None => Err(DecodeError::InvalidJson),
        }
    }
}

// ---------------------------------------------------------------------
// Executable encoding.
// ---------------------------------------------------------------------

/// Wraps each string of a list as a JSON string value.
#[verifier::loop_isolation(false)]
fn strings_to_json(v: &Vec<String>) -> (r: Vec<Json>)
    ensures
        view_elems(r@) == strs_json(view_strings(v@)),
{
    let mut out: Vec<Json> = Vec::new();
    let mut i: usize = 0;
    while i < v.len()
        invariant
            0 <= i <= v.len(),
            out@.len() == i,
            forall|k: int| 0 <= k < i ==> (#[trigger] out@[k])@ == JsonV::Str(v@[k]@),
        decreases v.len() - i,
    {
        out.push(Json::Str(v[i].clone()));
        i = i + 1;
    }
    proof {
        lemma_view_elems(out@);
        assert(view_elems(out@) =~= strs_json(view_strings(v@)));
    }
    out
}

impl Message {
    /// Builds the message's wire document.
    fn to_json(&self) -> (r: Json)
        ensures
            r@ == msg_json(self@),
    {
        match self {
            Message::ACTIVATE_VERSION { stream, version } => {
                let mut fields: Vec<(String, Json)> = Vec::new();
                fields.push(("type".to_owned(), Json::Str("ACTIVATE_VERSION".to_owned())));
                fields.push(("stream".to_owned(), Json::Str(stream.clone())));
                fields.push(("version".to_owned(), Json::UInt(*version)));
                proof {
                    lemma_view_fields(fields@);
                    assert(view_fields(fields@) =~= msg_json(self@)->Obj_0);
                }
                Json::Obj(fields)
            },
            Message::BATCH { stream, manifest, encoding } => {
                let mut enc: Vec<(String, Json)> = Vec::new();
                enc.push(("format".to_owned(), Json::Str(encoding.format.clone())));
                enc.push(("compression".to_owned(), Json::Str(encoding.compression.clone())));
                let mut fields: Vec<(String, Json)> = Vec::new();
                fields.push(("type".to_owned(), Json::Str("BATCH".to_owned())));
                fields.push(("stream".to_owned(), Json::Str(stream.clone())));
                fields.push(("manifest".to_owned(), Json::Arr(strings_to_json(manifest))));
                fields.push(("encoding".to_owned(), Json::Obj(enc)));
                proof {
                    lemma_view_fields(enc@);
                    lemma_view_fields(fields@);
                    assert(view_fields(enc@) =~= msg_json(self@)->Obj_0[3].1->Obj_0);
                    assert(view_fields(fields@) =~= msg_json(self@)->Obj_0);
                }
                Json::Obj(fields)
            },
            Message::RECORD { stream, record, time_extracted, version } => {
                let te: Json = match time_extracted {
                    Option::None => Json::Null,
                    Option::Some(s) => Json::Str(s.clone()),
                };
                let mut fields: Vec<(String, Json)> = Vec::new();
                fields.push(("type".to_owned(), Json::Str("RECORD".to_owned())));
                fields.push(("stream".to_owned(), Json::Str(stream.clone())));
                fields.push(("record".to_owned(), record.deep_copy()));
                fields.push(("time_extracted".to_owned(), te));
                fields.push(("version".to_owned(), Json::UInt(*version)));
                proof {
                    lemma_view_fields(fields@);
                    assert(view_fields(fields@) =~= msg_json(self@)->Obj_0);
                }
                Json::Obj(fields)
            },
            Message::SCHEMA { stream, schema, key_properties, bookmark_properties } => {
                let mut fields: Vec<(String, Json)> = Vec::new();
                fields.push(("type".to_owned(), Json::Str("SCHEMA".to_owned())));
                fields.push(("stream".to_owned(), Json::Str(stream.clone())));
                fields.push(("schema".to_owned(), schema.deep_copy()));
                fields.push(("key_properties".to_owned(), Json::Arr(strings_to_json(key_properties))));
                fields.push((
                    "bookmark_properties".to_owned(),
                    Json::Arr(strings_to_json(bookmark_properties)),
                ));
                proof {
                    lemma_view_fields(fields@);
                    assert(view_fields(fields@) =~= msg_json(self@)->Obj_0);
                }
                Json::Obj(fields)
            },
            Message::STATE { value } => {
                let mut fields: Vec<(String, Json)> = Vec::new();
                fields.push(("type".to_owned(), Json::Str("STATE".to_owned())));
                fields.push(("value".to_owned(), value.deep_copy()));
                proof {
                    lemma_view_fields(fields@);
                    assert(view_fields(fields@) =~= msg_json(self@)->Obj_0);
                }
                Json::Obj(fields)
            },
        }
    }

    /// Encodes the message as one compact JSON object line, holding no
    /// newline character.  For a well-formed message the line decodes
    /// back to the very same message.
    pub fn to_string(&self) -> (r: String)
        ensures
            r@ == json_text(msg_json(self@)),
            forall|i: int| 0 <= i < r@.len() ==> r@[i] != '\n',
            self@.wf() ==> decode_spec(r@) == Ok::<MessageV, DecodeError>(self@),
    {
        let j = self.to_json();
        proof {
            if self@.wf() {
                lemma_msg_json_wf(self@);
                lemma_decode_encode(self@);
            }
        }
        json_write(&j)
    }
}

// ---------------------------------------------------------------------
// The codec's laws.
// ---------------------------------------------------------------------

/// The wire words told apart: the field names that share an object are
/// pairwise distinct, and so are the five variant tags.
proof fn lemma_wire_words()
    ensures
        "type"@ != "stream"@,
        "type"@ != "record"@,
        "type"@ != "time_extracted"@,
        "type"@ != "version"@,
        "type"@ != "schema"@,
        "type"@ != "key_properties"@,
        "type"@ != "bookmark_properties"@,
        "type"@ != "value"@,
        "type"@ != "manifest"@,
        "type"@ != "encoding"@,
        "stream"@ != "record"@,
        "stream"@ != "time_extracted"@,
        "stream"@ != "version"@,
        "stream"@ != "schema"@,
        "stream"@ != "key_properties"@,
        "stream"@ != "bookmark_properties"@,
        "stream"@ != "manifest"@,
        "stream"@ != "encoding"@,
        "record"@ != "time_extracted"@,
        "record"@ != "version"@,
        "time_extracted"@ != "version"@,
        "schema"@ != "key_properties"@,
        "schema"@ != "bookmark_properties"@,
        "key_properties"@ != "bookmark_properties"@,
        "manifest"@ != "encoding"@,
        "format"@ != "compression"@,
        "RECORD"@ != "SCHEMA"@,
        "RECORD"@ != "STATE"@,
        "RECORD"@ != "ACTIVATE_VERSION"@,
        "RECORD"@ != "BATCH"@,
        "SCHEMA"@ != "STATE"@,
        "SCHEMA"@ != "ACTIVATE_VERSION"@,
        "SCHEMA"@ != "BATCH"@,
        "STATE"@ != "ACTIVATE_VERSION"@,
        "STATE"@ != "BATCH"@,
        "ACTIVATE_VERSION"@ != "BATCH"@,
{
    reveal_strlit("type");
    reveal_strlit("stream");
    reveal_strlit("record");
    reveal_strlit("time_extracted");
    reveal_strlit("version");
    reveal_strlit("schema");
    reveal_strlit("key_properties");
    reveal_strlit("bookmark_properties");
    reveal_strlit("value");
    reveal_strlit("manifest");
    reveal_strlit("encoding");
    reveal_strlit("format");
    reveal_strlit("compression");
    reveal_strlit("RECORD");
    reveal_strlit("SCHEMA");
    reveal_strlit("STATE");
    reveal_strlit("ACTIVATE_VERSION");
    reveal_strlit("BATCH");
    assert("type"@.len() == 4);
    assert("stream"@.len() == 6);
    assert("record"@.len() == 6);
    assert("time_extracted"@.len() == 14);
    assert("version"@.len() == 7);
    assert("schema"@.len() == 6);
    assert("key_properties"@.len() == 14);
    assert("bookmark_properties"@.len() == 19);
    assert("value"@.len() == 5);
    assert("manifest"@.len() == 8);
    assert("encoding"@.len() == 8);
    assert("format"@.len() == 6);
    assert("compression"@.len() == 11);
    assert("RECORD"@.len() == 6);
    assert("SCHEMA"@.len() == 6);
    assert("STATE"@.len() == 5);
    assert("ACTIVATE_VERSION"@.len() == 16);
    assert("BATCH"@.len() == 5);
    assert("stream"@[1] != "schema"@[1]);
    assert("stream"@[2] != "record"@[2]);
    assert("time_extracted"@[0] != "key_properties"@[0]);
    assert("manifest"@[0] != "encoding"@[0]);
    assert("RECORD"@[0] != "SCHEMA"@[0]);
    assert("STATE"@[1] != "BATCH"@[1]);
}

/// Looking up any key of an object whose keys are pairwise distinct
/// finds the field that carries it.
pub proof fn lemma_lookup_distinct(o: Seq<(Seq<char>, JsonV)>, k: Seq<char>, i: int)
    requires
        distinct_keys(o),
        0 <= i < o.len(),
        o[i].0 == k,
    ensures
        lookup(o, k) == Some(o[i].1),
    decreases i,
{
    if i > 0 {
        assert(o[0].0 != k);
        assert forall|a: int, b: int|
            0 <= a < b < o.drop_first().len() implies o.drop_first()[a].0 != o.drop_first()[b].0 by {
            assert(o.drop_first()[a] == o[a + 1]);
            assert(o.drop_first()[b] == o[b + 1]);
        }
        assert(o.drop_first()[i - 1] == o[i]);
        lemma_lookup_distinct(o.drop_first(), k, i - 1);
    }
}

/// The wire document of a well-formed message is itself well formed, so
/// its text reparses to the same document.
pub proof fn lemma_msg_json_wf(m: MessageV)
    requires
        m.wf(),
    ensures
        msg_json(m).wf(),
{
    lemma_wire_words();
    let o = msg_json(m)->Obj_0;
    let d = (MAX_DEPTH - 1) as nat;
    assert(distinct_keys(o));
    lemma_wf_fields_at(o, d);
    match m {
        MessageV::ActivateVersion { .. } => {},
        MessageV::Batch { manifest, encoding, .. } => {
            lemma_wf_elems_at(strs_json(manifest), (d - 1) as nat);
            let e = o[3].1->Obj_0;
            assert(distinct_keys(e));
            lemma_wf_fields_at(e, (d - 1) as nat);
        },
        MessageV::Record { .. } => {},
        MessageV::Schema { key_properties, bookmark_properties, .. } => {
            lemma_wf_elems_at(strs_json(key_properties), (d - 1) as nat);
            lemma_wf_elems_at(strs_json(bookmark_properties), (d - 1) as nat);
        },
        MessageV::State { .. } => {},
    }
}

/// Decoding inverts encoding: the wire document built for a well-formed
/// message carries exactly that message.
pub proof fn lemma_decode_encode(m: MessageV)
    requires
        m.wf(),
    ensures
        msg_of_json(msg_json(m)) == Ok::<MessageV, DecodeError>(m),
{
    lemma_wire_words();
    let o = msg_json(m)->Obj_0;
    assert(distinct_keys(o));
    lemma_lookup_distinct(o, "type"@, 0);
    match m {
        MessageV::ActivateVersion { stream, version } => {
            lemma_lookup_distinct(o, "stream"@, 1);
            lemma_lookup_distinct(o, "version"@, 2);
        },
        MessageV::Batch { stream, manifest, encoding } => {
            lemma_lookup_distinct(o, "stream"@, 1);
            lemma_lookup_distinct(o, "manifest"@, 2);
            lemma_lookup_distinct(o, "encoding"@, 3);
            assert forall|i: int| 0 <= i < strs_json(manifest).len() implies #[trigger] strs_json(
                manifest,
            )[i] is Str by {}
            assert(strings_of(strs_json(manifest)) =~= manifest);
            let e = o[3].1->Obj_0;
            assert(distinct_keys(e));
            lemma_lookup_distinct(e, "format"@, 0);
            lemma_lookup_distinct(e, "compression"@, 1);
        },
        MessageV::Record { stream, record, time_extracted, version } => {
            lemma_lookup_distinct(o, "stream"@, 1);
            lemma_lookup_distinct(o, "record"@, 2);
            lemma_lookup_distinct(o, "time_extracted"@, 3);
            lemma_lookup_distinct(o, "version"@, 4);
        },
        MessageV::Schema { stream, schema, key_properties, bookmark_properties } => {
            lemma_lookup_distinct(o, "stream"@, 1);
            lemma_lookup_distinct(o, "schema"@, 2);
            lemma_lookup_distinct(o, "key_properties"@, 3);
            lemma_lookup_distinct(o, "bookmark_properties"@, 4);
            assert forall|i: int|
                0 <= i < strs_json(key_properties).len() implies #[trigger] strs_json(
                key_properties,
            )[i] is Str by {}
            assert(strings_of(strs_json(key_properties)) =~= key_properties);
            assert forall|i: int|
                0 <= i < strs_json(bookmark_properties).len() implies #[trigger] strs_json(
                bookmark_properties,
            )[i] is Str by {}
            assert(strings_of(strs_json(bookmark_properties)) =~= bookmark_properties);
        },
        MessageV::State { value } => {
            lemma_lookup_distinct(o, "value"@, 1);
        },
    }
}

/// A line whose `type` tag is not one of the five known tags never
/// decodes to a message: the decoder answers `UnknownType`, it does not
/// fall back to any default variant.
pub proof fn lemma_unknown_tag_rejected(j: JsonV)
    requires
        j is Obj,
        match lookup(j->Obj_0, "type"@) {
            Option::Some(JsonV::Str(t)) => t != "RECORD"@ && t != "SCHEMA"@ && t != "STATE"@ && t
                != "ACTIVATE_VERSION"@ && t != "BATCH"@,
            Option::Some(_) => true,
            Option::None => true,
        },
    ensures
        msg_of_json(j) == Err::<MessageV, DecodeError>(DecodeError::UnknownType),
{
}


} // verus!

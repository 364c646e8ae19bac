//! Translation of a SCHEMA message's field declarations into a columnar
//! schema.
//!
//! Each entry of the schema document's `properties` object names a field
//! whose `type` must be one of the four supported scalar names.  Every
//! translated field is non-nullable.

use vstd::prelude::*;

use crate::json::{Json, JsonV, lookup, obj_get, view_fields, lemma_view_fields};
use crate::message::{Message, MessageV};

verus! {

/// The errors of schema translation and of the columnar sink.
#[derive(Debug, Clone, Copy, PartialEq, Eq, Structural)]
pub enum Error {
    /// The schema document lacks a usable `properties` object, or one of
    /// its properties lacks a recognized scalar `type`.
    Schema,
    /// Schema translation was invoked on a message that is not a SCHEMA.
    WrongMessageKind,
    /// The filesystem refused the output file.
    Io,
    /// The columnar codec refused the batch.
    Codec,
}

/// A scalar column type of the columnar output schema.
#[derive(Clone, Copy, Debug, PartialEq, Eq, Structural)]
pub enum ColumnType {
    Utf8,
    Int64,
    Float64,
    Boolean,
}

/// One column of the columnar output schema.
#[derive(Debug, PartialEq)]
pub struct Field {
    pub name: String,
    pub data_type: ColumnType,
    pub nullable: bool,
}

/// The mathematical view of a `Field`.
pub struct FieldV {
    pub name: Seq<char>,
    pub data_type: ColumnType,
    pub nullable: bool,
}

impl View for Field {
    type V = FieldV;

    open spec fn view(&self) -> FieldV {
        FieldV { name: self.name@, data_type: self.data_type, nullable: self.nullable }
    }
}

/// The columnar schema derived from one SCHEMA message: its fields in
/// the source document's order.
#[derive(Debug, PartialEq)]
pub struct ColumnarSchema {
    pub fields: Vec<Field>,
}

impl View for ColumnarSchema {
    type V = Seq<FieldV>;

    open spec fn view(&self) -> Seq<FieldV> {
        Seq::new(self.fields@.len(), |i: int| self.fields@[i]@)
    }
}

/// The scalar column type named by a JSON schema `type` value, if it is
/// one of the four recognized names.
pub open spec fn scalar_of(t: JsonV) -> Option<ColumnType> {
    match t {
        JsonV::Str(s) => if s == "string"@ {
            Some(ColumnType::Utf8)
        } else if s == "integer"@ {
            Some(ColumnType::Int64)
        } else if s == "number"@ {
            Some(ColumnType::Float64)
        } else if s == "boolean"@ {
            Some(ColumnType::Boolean)
        } else {
            None
        },
        _ => None,
    }
}

/// The column declared by one property: its attributes must be an object
/// whose `type` names a recognized scalar.  Every column is non-nullable.
pub open spec fn field_of_prop(name: Seq<char>, attrs: JsonV) -> Option<FieldV> {
    match attrs {
        JsonV::Obj(a) => match lookup(a, "type"@) {
            Option::Some(t) => match scalar_of(t) {
                Option::Some(ct) => Some(
                    FieldV { name, data_type: ct, nullable: false },
                ),
                Option::None => None,
            },
            Option::None => None,
        },
        _ => None,
    }
}

/// Every property of the list declares a recognized column.
pub open spec fn all_props_ok(props: Seq<(Seq<char>, JsonV)>) -> bool {
    forall|i: int|
        0 <= i < props.len() ==> field_of_prop(#[trigger] props[i].0, props[i].1) is Some
}

/// The columns declared by a property list, in encounter order.
pub open spec fn fields_of(props: Seq<(Seq<char>, JsonV)>) -> Seq<FieldV> {
    Seq::new(props.len(), |i: int| field_of_prop(props[i].0, props[i].1)->Some_0)
}

/// The columnar schema of a message: the message must be a SCHEMA, its
/// schema document must carry a `properties` object, and every property
/// must declare a recognized scalar column.
pub open spec fn schema_fields(m: MessageV) -> Result<Seq<FieldV>, Error> {
    match m {
        MessageV::Schema { schema, .. } => match schema {
            JsonV::Obj(s) => match lookup(s, "properties"@) {
                Option::Some(JsonV::Obj(props)) => if all_props_ok(props) {
                    Ok(fields_of(props))
                } else {
                    Err(Error::Schema)
                },
                Option::Some(_) => Err(Error::Schema),
                Option::None => Err(Error::Schema),
            },
            _ => Err(Error::Schema),
        },
        _ => Err(Error::WrongMessageKind),
    }
}

/// Maps a JSON schema `type` value to a scalar column type; any other
/// value is a schema error.
pub fn json_type_to_arrow(type_obj: &Json) -> (r: Result<ColumnType, Error>)
    ensures
        r == match scalar_of(type_obj@) {
            Option::Some(ct) => Ok::<ColumnType, Error>(ct),
            Option::None => Err::<ColumnType, Error>(Error::Schema),
        },
{
    match type_obj {
        Json::Str(s) => {
            if *s == "string".to_owned() {
                Ok(ColumnType::Utf8)
            } else if *s == "integer".to_owned() {
                Ok(ColumnType::Int64)
            } else if *s == "number".to_owned() {
                Ok(ColumnType::Float64)
            } else if *s == "boolean".to_owned() {
                Ok(ColumnType::Boolean)
            } else {
                Err(Error::Schema)
            }
        },
        _ => Err(Error::Schema),
    }
}

/// Derives the columnar schema declared by a SCHEMA message, reading its
/// `properties` object in encounter order.
#[verifier::loop_isolation(false)]
pub fn singer_schema_to_arrow(schema_msg: &Message) -> (r: Result<ColumnarSchema, Error>)
    ensures
        match r {
            Ok(cs) => schema_fields(schema_msg@) == Ok::<Seq<FieldV>, Error>(cs@),
            Err(e) => schema_fields(schema_msg@) == Err::<Seq<FieldV>, Error>(e),
        },
{
    let schema: &Json = match schema_msg {
        Message::SCHEMA { schema, .. } => schema,
        _ => {
            return Err(Error::WrongMessageKind);
        },
    };
    let s: &Vec<(String, Json)> = match schema {
        Json::Obj(s) => s,
        _ => {
            return Err(Error::Schema);
        },
    };
    let props: &Vec<(String, Json)> = match obj_get(s, &"properties".to_owned()) {
        Option::Some(Json::Obj(props)) => props,
        Option::Some(_) => {
            return Err(Error::Schema);
        },
        Option::None => {
            return Err(Error::Schema);
        },
    };
    proof {
        lemma_view_fields(props@);
    }
    let ghost pv = view_fields(props@);
    let mut fields: Vec<Field> = Vec::new();
    let mut i: usize = 0;
    while i < props.len()
        invariant
            0 <= i <= props.len(),
            fields@.len() == i,
            forall|k: int|
                0 <= k < i ==> field_of_prop(#[trigger] pv[k].0, pv[k].1) is Some,
            forall|k: int|
                0 <= k < i ==> fields@[k]@ == field_of_prop(#[trigger] pv[k].0, pv[k].1)->Some_0,
        decreases props.len() - i,
    {
        proof {
            assert(pv[i as int] == (props@[i as int].0@, props@[i as int].1@));
        }
        let attrs: &Vec<(String, Json)> = match &props[i].1 {
            Json::Obj(a) => a,
            _ => {
                proof {
                    assert(field_of_prop(pv[i as int].0, pv[i as int].1) is None);
                }
                return Err(Error::Schema);
            },
        };
        let t: &Json = match obj_get(attrs, &"type".to_owned()) {
            Option::Some(t) => t,
            Option::None => {
                proof {
                    assert(field_of_prop(pv[i as int].0, pv[i as int].1) is None);
                }
                return Err(Error::Schema);
            },
        };
        let data_type: ColumnType = match json_type_to_arrow(t) {
            Ok(ct) => ct,
            Err(e) => {
                proof {
                    assert(field_of_prop(pv[i as int].0, pv[i as int].1) is None);
                }
                return Err(e);
            },
        };
        let name: String = props[i].0.clone();
        let ghost prev = fields@;
        fields.push(Field { name, data_type, nullable: false });
        proof {
            assert forall|k: int|
                0 <= k < i + 1 implies fields@[k]@ == field_of_prop(
                #[trigger] pv[k].0,
                pv[k].1,
            )->Some_0 by {
                if k < i {
                    assert(fields@[k] == prev[k]);
                }
            }
        }
        i = i + 1;
    }
    proof {
        assert(Seq::new(fields@.len(), |k: int| fields@[k]@) =~= fields_of(pv));
    }
    Ok(ColumnarSchema { fields })
}

} // verus!

//! A minimal model of JSON documents.
//!
//! Protocol messages embed raw JSON documents (a record's row, a stream's
//! schema, a checkpoint payload).  The `Json` type holds such a document as
//! plain data that contracts can speak about; `JsonV` is its mathematical
//! view.  Integers outside `i64`/`u64` and all other numbers are kept in
//! their textual form.

use serde_json::{Number, Value};
use vstd::prelude::*;

verus! {

/// A JSON document as plain data.
///
/// Integers are split between `Int` (for negative values) and `UInt`
/// (for non-negative values); any other JSON number is held textually in
/// `Num`.  Objects keep their fields in encounter order.
#[derive(Debug, PartialEq)]
pub enum Json {
    Null,
    Bool(bool),
    Int(i64),
    UInt(u64),
    Num(String),
    Str(String),
    Arr(Vec<Json>),
    Obj(Vec<(String, Json)>),
}

/// The mathematical view of a JSON document.  `Int` covers the views of
/// both integer variants of `Json`.
pub enum JsonV {
    Null,
    Bool(bool),
    Int(int),
    Num(Seq<char>),
    Str(Seq<char>),
    Arr(Seq<JsonV>),
    Obj(Seq<(Seq<char>, JsonV)>),
}

impl View for Json {
    type V = JsonV;

    open spec fn view(&self) -> JsonV
        decreases self,
    {
        match self {
            Json::Null => JsonV::Null,
            Json::Bool(b) => JsonV::Bool(*b),
            Json::Int(i) => JsonV::Int(*i as int),
            Json::UInt(u) => JsonV::Int(*u as int),
            Json::Num(s) => JsonV::Num(s@),
            Json::Str(s) => JsonV::Str(s@),
            Json::Arr(v) => JsonV::Arr(view_elems(v@)),
            Json::Obj(v) => JsonV::Obj(view_fields(v@)),
        }
    }
}

/// The views of a sequence of documents, element by element.
pub open spec fn view_elems(s: Seq<Json>) -> Seq<JsonV>
    decreases s,
{
    if s.len() == 0 {
        Seq::empty()
    } else {
        seq![s[0]@] + view_elems(s.drop_first())
    }
}

/// The views of an object's field list, field by field.
pub open spec fn view_fields(s: Seq<(String, Json)>) -> Seq<(Seq<char>, JsonV)>
    decreases s,
{
    if s.len() == 0 {
        Seq::empty()
    } else {
        seq![(s[0].0@, s[0].1@)] + view_fields(s.drop_first())
    }
}

pub proof fn lemma_view_elems(s: Seq<Json>)
    ensures
        view_elems(s).len() == s.len(),
        forall|i: int| 0 <= i < s.len() ==> view_elems(s)[i] == s[i]@,
    decreases s.len(),
{
    if s.len() > 0 {
        lemma_view_elems(s.drop_first());
        assert(view_elems(s) == seq![s[0]@] + view_elems(s.drop_first()));
        assert forall|i: int| 0 <= i < s.len() implies view_elems(s)[i] == s[i]@ by {
            if i > 0 {
                assert(s.drop_first()[i - 1] == s[i]);
                assert(view_elems(s)[i] == view_elems(s.drop_first())[i - 1]);
            }
        }
    }
}

pub proof fn lemma_view_fields(s: Seq<(String, Json)>)
    ensures
        view_fields(s).len() == s.len(),
        forall|i: int| 0 <= i < s.len() ==> view_fields(s)[i] == (s[i].0@, s[i].1@),
    decreases s.len(),
{
    if s.len() > 0 {
        lemma_view_fields(s.drop_first());
        assert(view_fields(s) == seq![(s[0].0@, s[0].1@)] + view_fields(s.drop_first()));
        assert forall|i: int| 0 <= i < s.len() implies view_fields(s)[i] == (s[i].0@, s[i].1@) by {
            if i > 0 {
                assert(s.drop_first()[i - 1] == s[i]);
                assert(view_fields(s)[i] == view_fields(s.drop_first())[i - 1]);
            }
        }
    }
}

/// The value of the first field named `k` in an object's field list,
/// if any field carries that name.
pub open spec fn lookup(o: Seq<(Seq<char>, JsonV)>, k: Seq<char>) -> Option<JsonV>
    decreases o.len(),
{
    if o.len() == 0 {
        None
    } else if o[0].0 == k {
        Some(o[0].1)
    } else {
        lookup(o.drop_first(), k)
    }
}

/// All field names of an object's field list are pairwise distinct.
pub open spec fn distinct_keys(o: Seq<(Seq<char>, JsonV)>) -> bool {
    forall|i: int, j: int| 0 <= i < j < o.len() ==> o[i].0 != o[j].0
}

/// Nesting bound under which a document is `wf`.  The JSON codec this
/// library relies on refuses documents nested deeper than 128 levels, so
/// round-trip guarantees are only stated below that bound.
pub const MAX_DEPTH: u64 = 100;

/// A document is well formed at depth budget `d`: it holds no textual
/// number, every object's field names are distinct, and containers nest
/// at most `d` levels deep.  Well-formed documents are exactly those
/// whose wire text reparses to the same view.
pub open spec fn wf_at(j: JsonV, d: nat) -> bool
    decreases j,
{
    match j {
        JsonV::Num(_) => false,
        JsonV::Arr(a) => d > 0 && wf_elems_at(a, (d - 1) as nat),
        JsonV::Obj(o) => d > 0 && distinct_keys(o) && wf_fields_at(o, (d - 1) as nat),
        _ => true,
    }
}

pub open spec fn wf_elems_at(s: Seq<JsonV>, d: nat) -> bool
    decreases s,
{
    s.len() == 0 || (wf_at(s[0], d) && wf_elems_at(s.drop_first(), d))
}

pub open spec fn wf_fields_at(o: Seq<(Seq<char>, JsonV)>, d: nat) -> bool
    decreases o,
{
    o.len() == 0 || (wf_at(o[0].1, d) && wf_fields_at(o.drop_first(), d))
}

impl JsonV {
    /// A document whose wire text reparses to the same view.
    pub open spec fn wf(self) -> bool {
        wf_at(self, MAX_DEPTH as nat)
    }

    /// A document fit to be embedded in a message: one nesting level is
    /// kept in reserve for the enclosing message object.
    pub open spec fn doc_wf(self) -> bool {
        wf_at(self, (MAX_DEPTH - 1) as nat)
    }
}

pub proof fn lemma_wf_elems_at(s: Seq<JsonV>, d: nat)
    ensures
        wf_elems_at(s, d) <==> (forall|i: int| 0 <= i < s.len() ==> wf_at(#[trigger] s[i], d)),
    decreases s.len(),
{
    if s.len() > 0 {
        lemma_wf_elems_at(s.drop_first(), d);
        assert forall|i: int| 0 <= i < s.len() && wf_elems_at(s, d) implies wf_at(#[trigger] s[i], d) by {
            if i > 0 {
                assert(s.drop_first()[i - 1] == s[i]);
            }
        }
        if forall|i: int| 0 <= i < s.len() ==> wf_at(#[trigger] s[i], d) {
            assert forall|i: int| 0 <= i < s.drop_first().len() implies wf_at(
                #[trigger] s.drop_first()[i],
                d,
            ) by {
                assert(s.drop_first()[i] == s[i + 1]);
            }
        }
    }
}

pub proof fn lemma_wf_fields_at(o: Seq<(Seq<char>, JsonV)>, d: nat)
    ensures
        wf_fields_at(o, d) <==> (forall|i: int|
            0 <= i < o.len() ==> wf_at(#[trigger] o[i].1, d)),
    decreases o.len(),
{
    if o.len() > 0 {
        lemma_wf_fields_at(o.drop_first(), d);
        assert forall|i: int| 0 <= i < o.len() && wf_fields_at(o, d) implies wf_at(
            #[trigger] o[i].1,
            d,
        ) by {
            if i > 0 {
                assert(o.drop_first()[i - 1] == o[i]);
            }
        }
        if forall|i: int| 0 <= i < o.len() ==> wf_at(#[trigger] o[i].1, d) {
            assert forall|i: int| 0 <= i < o.drop_first().len() implies wf_at(
                #[trigger] o.drop_first()[i].1,
                d,
            ) by {
                assert(o.drop_first()[i] == o[i + 1]);
            }
        }
    }
}

/// Looks a field up in an object's field list, first match wins.
pub fn obj_get<'a>(fields: &'a Vec<(String, Json)>, key: &String) -> (r: Option<&'a Json>)
    ensures
        match r {
            Some(j) => lookup(view_fields(fields@), key@) == Some(j@),
            None => lookup(view_fields(fields@), key@) is None,
        },
{
    proof {
        lemma_view_fields(fields@);
        assert(view_fields(fields@).skip(0) =~= view_fields(fields@));
    }
    let ghost o = view_fields(fields@);
    let mut i: usize = 0;
    while i < fields.len()
        invariant
            0 <= i <= fields.len(),
            o == view_fields(fields@),
            o.len() == fields@.len(),
            forall|k: int| 0 <= k < o.len() ==> o[k] == (fields@[k].0@, fields@[k].1@),
            lookup(o, key@) == lookup(o.skip(i as int), key@),
        decreases fields.len() - i,
    {
        if fields[i].0 == *key {
            proof {
                assert(o.skip(i as int)[0] == o[i as int]);
            }
            return Some(&fields[i].1);
        }
        proof {
            assert(o.skip(i as int)[0] == o[i as int]);
            assert(o.skip(i as int).drop_first() =~= o.skip(i as int + 1));
        }
        i = i + 1;
    }
    proof {
        assert(o.skip(i as int).len() == 0);
    }
    None
}

impl Json {
    /// A structural copy of the document.
    #[verifier::loop_isolation(false)]
    pub fn deep_copy(&self) -> (r: Json)
        ensures
            r@ == self@,
        decreases self,
    {
        match self {
            Json::Null => Json::Null,
            Json::Bool(b) => Json::Bool(*b),
            Json::Int(i) => Json::Int(*i),
            Json::UInt(u) => Json::UInt(*u),
            Json::Num(s) => Json::Num(s.clone()),
            Json::Str(s) => Json::Str(s.clone()),
            Json::Arr(v) => {
                let mut out: Vec<Json> = Vec::new();
                let mut i: usize = 0;
                while i < v.len()
                    invariant
                        0 <= i <= v.len(),
                        out@.len() == i,
                        forall|k: int| 0 <= k < i ==> out@[k]@ == v@[k]@,
                    decreases v.len() - i,
                {
                    out.push(v[i].deep_copy());
                    i = i + 1;
                }
                proof {
                    lemma_view_elems(out@);
                    lemma_view_elems(v@);
                    assert(view_elems(out@) =~= view_elems(v@));
                }
                Json::Arr(out)
            },
            Json::Obj(v) => {
                let mut out: Vec<(String, Json)> = Vec::new();
                let mut i: usize = 0;
                while i < v.len()
                    invariant
                        0 <= i <= v.len(),
                        out@.len() == i,
                        forall|k: int|
                            0 <= k < i ==> out@[k].0@ == v@[k].0@ && out@[k].1@ == v@[k].1@,
                    decreases v.len() - i,
                {
                    out.push((v[i].0.clone(), v[i].1.deep_copy()));
                    i = i + 1;
                }
                proof {
                    lemma_view_fields(out@);
                    lemma_view_fields(v@);
                    assert(view_fields(out@) =~= view_fields(v@));
                }
                Json::Obj(out)
            },
        }
    }
}

/// The wire text that the JSON codec produces for a document with this
/// view.  The codec's output depends on the document's view alone.
pub uninterp spec fn json_text(j: JsonV) -> Seq<char>;

/// The document, if any, that the JSON codec parses out of a line of
/// text.  The parse depends on the text alone.
pub uninterp spec fn json_parse_spec(s: Seq<char>) -> Option<JsonV>;

#[verifier::external_type_specification]
#[verifier::external_body]
pub struct ExValue(Value);

#[verifier::external_body]
fn json_of_value(v: Value) -> Json {
    match v {
        Value::Null => Json::Null,
        Value::Bool(b) => Json::Bool(b),
        Value::Number(n) => match (n.as_u64(), n.as_i64()) {
            (Some(u), _) => Json::UInt(u),
            (None, Some(i)) => Json::Int(i),
            (None, None) => Json::Num(n.to_string()),
        },
        Value::String(s) => Json::Str(s),
        Value::Array(a) => Json::Arr(a.into_iter().map(json_of_value).collect()),
        Value::Object(m) => Json::Obj(m.into_iter().map(|(k, x)| (k, json_of_value(x))).collect()),
    }
}

#[verifier::external_body]
fn value_of_json(j: &Json) -> Value {
    match j {
        Json::Null => Value::Null,
        Json::Bool(b) => Value::Bool(*b),
        Json::Int(i) => Value::Number(Number::from(*i)),
        Json::UInt(u) => Value::Number(Number::from(*u)),
        Json::Num(s) => s.parse().map(Value::Number).unwrap_or(Value::Null),
        Json::Str(s) => Value::String(s.clone()),
        Json::Arr(a) => Value::Array(a.iter().map(value_of_json).collect()),
        Json::Obj(o) => Value::Object(o.iter().map(|(k, x)| (k.clone(), value_of_json(x))).collect()),
    }
}

/// Relies on serde_json::from_str::<Value>: it parses a line of text into
/// a JSON value, or fails; the outcome depends on the text alone, object
/// keys keep their source order, and a value that the codec itself
/// printed parses back to an equal value.
#[verifier::external_body]
pub(crate) fn json_parse(s: &str) -> (r: Option<Json>)
    ensures
        match r {
            Some(j) => json_parse_spec(s@) == Some(j@),
            None => json_parse_spec(s@) is None,
        },
{
    serde_json::from_str::<Value>(s).ok().map(json_of_value)
}

/// Relies on serde_json::to_string::<Value>: it prints a JSON value as
/// one compact line whose text depends on the value alone — the compact
/// writer emits no whitespace of its own and escapes any newline inside
/// a string, so the text holds no newline character — and its output
/// parses back (by serde_json::from_str) to an equal value.  Well-formed
/// documents convert to a JSON value exactly (only a malformed textual
/// number would not, and well-formedness excludes those), so for them
/// the reparse returns the same view.
#[verifier::external_body]
pub(crate) fn json_write(j: &Json) -> (r: String)
    ensures
        r@ == json_text(j@),
        forall|i: int| 0 <= i < r@.len() ==> r@[i] != '\n',
        j@.wf() ==> json_parse_spec(r@) == Some(j@),
{
    serde_json::to_string(&value_of_json(j)).unwrap_or_else(|_| "null".to_owned())
}

} // verus!

//! Materializing accumulated RECORD messages as a columnar batch.
//!
//! For each schema field, a column is built by scanning every record's
//! document for a key of that name: a present value is coerced to text
//! (a JSON string contributes its characters, any other value its wire
//! text), an absent key contributes a null.

use vstd::prelude::*;

use crate::json::{Json, JsonV, json_text, json_write, lookup, obj_get, view_elems,
    lemma_view_elems};
use crate::message::{Message, MessageV};
use crate::schema::{ColumnarSchema, FieldV};

verus! {

/// One materialized batch: per schema field one column of optional
/// textual cells, all columns of one length.
#[derive(Debug, PartialEq)]
pub struct ColumnBatch {
    pub columns: Vec<Vec<Option<String>>>,
    pub rows: usize,
}

/// The views of one column's cells.
pub open spec fn view_cells(s: Seq<Option<String>>) -> Seq<Option<Seq<char>>> {
    Seq::new(
        s.len(),
        |i: int|
            match s[i] {
                Option::None => None,
                Option::Some(t) => Some(t@),
            },
    )
}

impl View for ColumnBatch {
    type V = Seq<Seq<Option<Seq<char>>>>;

    open spec fn view(&self) -> Seq<Seq<Option<Seq<char>>>> {
        Seq::new(self.columns@.len(), |c: int| view_cells(self.columns@[c]@))
    }
}

impl ColumnBatch {
    /// Every column holds exactly `rows` cells.
    pub open spec fn wf(self) -> bool {
        forall|c: int| 0 <= c < self.columns@.len() ==> (#[trigger] self.columns@[c])@.len()
            == self.rows
    }

    /// The number of rows the batch holds.
    pub fn num_rows(&self) -> (r: usize)
        ensures
            r == self.rows,
    {
        self.rows
    }

    /// The number of columns the batch holds.
    pub fn num_columns(&self) -> (r: usize)
        ensures
            r == self@.len(),
    {
        self.columns.len()
    }
}

/// The record documents of the RECORD messages in a list, in order;
/// every other variant is passed over.
pub open spec fn records_of(msgs: Seq<MessageV>) -> Seq<JsonV>
    decreases msgs.len(),
{
    if msgs.len() == 0 {
        Seq::empty()
    } else {
        records_of(msgs.drop_last()) + match msgs.last() {
            MessageV::Record { record, .. } => seq![record],
            _ => Seq::empty(),
        }
    }
}

/// The text a field value contributes to its cell: a JSON string its
/// characters, any other value its wire text.
pub open spec fn cell_text(v: JsonV) -> Seq<char> {
    match v {
        JsonV::Str(s) => s,
        _ => json_text(v),
    }
}

/// The cell a record document contributes to the column named `name`:
/// the named field's text when the document carries it, null otherwise.
pub open spec fn cell_of(doc: JsonV, name: Seq<char>) -> Option<Seq<char>> {
    match doc {
        JsonV::Obj(o) => match lookup(o, name) {
            Option::Some(v) => Some(cell_text(v)),
            Option::None => None,
        },
        _ => None,
    }
}

/// The column named `name`, one cell per record document.
pub open spec fn column_of(docs: Seq<JsonV>, name: Seq<char>) -> Seq<Option<Seq<char>>> {
    Seq::new(docs.len(), |r: int| cell_of(docs[r], name))
}

/// The whole batch: one column per schema field, in the schema's order.
pub open spec fn columns_spec(fields: Seq<FieldV>, docs: Seq<JsonV>) -> Seq<
    Seq<Option<Seq<char>>>,
> {
    Seq::new(fields.len(), |c: int| column_of(docs, fields[c].name))
}

/// A record document that omits a schema-declared field contributes a
/// null in that field's column for its row — never an error.
pub proof fn lemma_missing_field_null(fields: Seq<FieldV>, docs: Seq<JsonV>, c: int, r: int)
    requires
        0 <= c < fields.len(),
        0 <= r < docs.len(),
        docs[r] is Obj ==> lookup(docs[r]->Obj_0, fields[c].name) is None,
    ensures
        columns_spec(fields, docs)[c][r] is None,
{
}

/// The views of a list of messages.
pub open spec fn view_msgs(s: Seq<Message>) -> Seq<MessageV> {
    Seq::new(s.len(), |i: int| s[i]@)
}

/// Copies out the record documents of the RECORD messages of a list.
#[verifier::loop_isolation(false)]
fn record_docs(msgs: &Vec<Message>) -> (r: Vec<Json>)
    ensures
        view_elems(r@) == records_of(view_msgs(msgs@)),
{
    let ghost mv = view_msgs(msgs@);
    let mut docs: Vec<Json> = Vec::new();
    let mut i: usize = 0;
    while i < msgs.len()
        invariant
            0 <= i <= msgs.len(),
            view_elems(docs@) == records_of(mv.take(i as int)),
        decreases msgs.len() - i,
    {
        proof {
            lemma_view_elems(docs@);
            assert(mv.take(i as int + 1).drop_last() =~= mv.take(i as int));
            assert(mv.take(i as int + 1).last() == mv[i as int]);
        }
        let ghost prev = docs@;
        match &msgs[i] {
            Message::RECORD { record, .. } => {
                docs.push(record.deep_copy());
                proof {
                    lemma_view_elems(docs@);
                    lemma_view_elems(prev);
                    assert(view_elems(docs@) =~= view_elems(prev) + seq![record@]);
                }
            },
            _ => {
                proof {
                    assert(records_of(mv.take(i as int + 1)) =~= records_of(mv.take(i as int)));
                }
            },
        }
        i = i + 1;
    }
    proof {
        assert(mv.take(msgs@.len() as int) =~= mv);
    }
    docs
}

/// Coerces one field value to its cell text.
fn cell_string(v: &Json) -> (r: String)
    ensures
        r@ == cell_text(v@),
{
    match v {
        Json::Str(s) => s.clone(),
        _ => json_write(v),
    }
}

/// A batch source: a container of messages whose RECORD members can be
/// materialized as one columnar batch.
pub trait ToRecordBatch {
    /// The views of the messages the container holds.
    spec fn records_view(&self) -> Seq<MessageV>;

    /// Materializes the container's RECORD messages as one columnar
    /// batch in the schema's field order: one row per RECORD, and in
    /// each cell the named field's text, or null where the record's
    /// document omits the field.
    fn to_record_batch(&self, schema: &ColumnarSchema) -> (r: ColumnBatch)
        ensures
            r.wf(),
            r@ == columns_spec(schema@, records_of(self.records_view())),
            r.rows == records_of(self.records_view()).len(),
    ;
}

impl ToRecordBatch for Vec<Message> {
    open spec fn records_view(&self) -> Seq<MessageV> {
        view_msgs(self@)
    }

    #[verifier::loop_isolation(false)]
    fn to_record_batch(&self, schema: &ColumnarSchema) -> (r: ColumnBatch)
        ensures
            r.wf(),
            r@ == columns_spec(schema@, records_of(self.records_view())),
            r.rows == records_of(self.records_view()).len(),
    {
        let docs = record_docs(self);
        proof {
            lemma_view_elems(docs@);
        }
        let ghost dv = view_elems(docs@);
        let mut columns: Vec<Vec<Option<String>>> = Vec::new();
        let mut c: usize = 0;
        while c < schema.fields.len()
            invariant
                0 <= c <= schema.fields@.len(),
                columns@.len() == c,
                forall|k: int|
                    0 <= k < c ==> (#[trigger] columns@[k])@.len() == docs@.len(),
                forall|k: int|
                    0 <= k < c ==> view_cells((#[trigger] columns@[k])@) == column_of(
                        dv,
                        schema@[k].name,
                    ),
            decreases schema.fields@.len() - c,
        {
            let name: &String = &schema.fields[c].name;
            let mut col: Vec<Option<String>> = Vec::new();
            let mut r: usize = 0;
            while r < docs.len()
                invariant
                    0 <= r <= docs@.len(),
                    col@.len() == r,
                    forall|k: int|
                        0 <= k < r ==> view_cells(col@)[k] == cell_of(dv[k], name@),
                decreases docs@.len() - r,
            {
                let ghost prevc = col@;
                match &docs[r] {
                    Json::Obj(o) => match obj_get(o, name) {
                        Option::Some(v) => col.push(Some(cell_string(v))),
                        Option::None => col.push(None),
                    },
                    _ => col.push(None),
                }
                proof {
                    assert forall|k: int| 0 <= k < r + 1 implies view_cells(col@)[k] == cell_of(
                        dv[k],
                        name@,
                    ) by {
                        if k < r {
                            assert(col@[k] == prevc[k]);
                            assert(view_cells(prevc)[k] == cell_of(dv[k], name@));
                        } else {
                            assert(dv[k] == docs@[k]@);
                        }
                    }
                }
                r = r + 1;
            }
            proof {
                assert(view_cells(col@) =~= column_of(dv, schema@[c as int].name));
            }
            columns.push(col);
            c = c + 1;
        }
        let rows: usize = docs.len();
        let b = ColumnBatch { columns, rows };
        proof {
            assert(b@ =~= columns_spec(schema@, records_of(view_msgs(self@))));
        }
        b
    }
}

} // verus!

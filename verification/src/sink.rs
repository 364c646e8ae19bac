//! The batched columnar sink: accumulates RECORD messages and persists
//! them as a compressed columnar file.
//!
//! A sink is built from one SCHEMA message.  `add_record` appends RECORD
//! messages (all other variants are passed over silently) and flushes on
//! its own once the pending count reaches the configured batch size.
//! `flush` materializes the pending records as one columnar batch,
//! writes it as a single row group to a freshly created file (replacing
//! any prior content), and only then clears the pending batch; on
//! failure the pending batch is kept so the caller may retry.

use std::sync::Arc;

use arrow::array::{ArrayRef, StringArray};
use arrow::datatypes::{DataType, Field, Schema};
use arrow::record_batch::RecordBatch;
use parquet::arrow::ArrowWriter;
use parquet::basic::Compression;
use parquet::file::properties::WriterProperties;
use vstd::prelude::*;
use vstd::string::StringExecFns;

use crate::batch::{ColumnBatch, ToRecordBatch, view_msgs};
use crate::message::{Message, MessageV};
use crate::schema::{ColumnType, ColumnarSchema, Error, FieldV, schema_fields, singer_schema_to_arrow};

verus! {

#[verifier::external_type_specification]
#[verifier::external_body]
pub struct ExArrowSchema(Schema);

#[verifier::external_type_specification]
#[verifier::external_body]
pub struct ExWriterProperties(WriterProperties);

/// Relies on parquet's WriterProperties: the fixed write policy, SNAPPY
/// compression for every output file.
#[verifier::external_body]
fn writer_props() -> WriterProperties {
    WriterProperties::builder().set_compression(Compression::SNAPPY).build()
}

/// Relies on arrow's Field::new and Schema::new: they assemble a schema
/// from the given (name, type, nullability) triples.
#[verifier::external_body]
fn arrow_schema(cs: &ColumnarSchema) -> Schema {
    let fields: Vec<Field> = cs.fields.iter().map(|f| Field::new(
        f.name.clone(),
        match f.data_type {
            ColumnType::Utf8 => DataType::Utf8,
            ColumnType::Int64 => DataType::Int64,
            ColumnType::Float64 => DataType::Float64,
            ColumnType::Boolean => DataType::Boolean,
        },
        f.nullable,
    )).collect();
    Schema::new(fields)
}

/// Relies on arrow's StringArray::from, RecordBatch::try_new and
/// parquet's ArrowWriter: the cells become one string array per column;
/// try_new validates the arrays against the schema (column count, types
/// and lengths — so a schema whose declared types are not all strings is
/// refused here); and the writer encodes the batch as one
/// self-describing columnar file with an embedded schema, compressed
/// with the fixed SNAPPY policy, held here in memory.
#[verifier::external_body]
fn parquet_encode(schema: &Schema, cols: &Vec<Vec<Option<String>>>) -> Option<Vec<u8>> {
    let arrays: Vec<ArrayRef> = cols.iter().map(
        |c| Arc::new(StringArray::from(c.clone())) as ArrayRef,
    ).collect();
    let batch = RecordBatch::try_new(Arc::new(schema.clone()), arrays).ok()?;
    let mut buf: Vec<u8> = Vec::new();
    let mut w = ArrowWriter::try_new(&mut buf, batch.schema(), Some(writer_props())).ok()?;
    w.write(&batch).ok()?;
    w.close().ok()?;
    Some(buf)
}

#[verifier::external_body]
fn parquet_bytes(schema: &Schema, cols: &Vec<Vec<Option<String>>>) -> (r: Result<Vec<u8>, Error>)
    ensures
        r matches Err(e) ==> e == Error::Codec,
{
    parquet_encode(schema, cols).ok_or(Error::Codec)
}

/// Relies on fs_err::write: it creates or truncates the file at `path`
/// and writes the given bytes, fully replacing any prior content.
#[verifier::external_body]
fn write_file(path: &String, bytes: &Vec<u8>) -> (r: Result<(), Error>)
    ensures
        r matches Err(e) ==> e == Error::Io,
{
    fs_err::write(path, bytes).map_err(|_| Error::Io)
}

/// A batched columnar sink bound to one stream's schema and one output
/// path; the file's stem is the stream's name.
pub struct ParquetSink {
    schema: ColumnarSchema,
    output_path: String,
    batch_size: usize,
    current_batch: Vec<Message>,
}

impl ParquetSink {
    /// The derived columnar schema the sink writes with.
    pub closed spec fn schema_view(&self) -> Seq<FieldV> {
        self.schema@
    }

    /// Where the sink writes its file.
    pub closed spec fn path(&self) -> Seq<char> {
        self.output_path@
    }

    /// The pending count at which `add_record` flushes on its own.
    pub closed spec fn size(&self) -> usize {
        self.batch_size
    }

    /// The RECORD messages accumulated and not yet written.
    pub closed spec fn pending(&self) -> Seq<MessageV> {
        view_msgs(self.current_batch@)
    }

    /// Every pending message is a RECORD.
    pub open spec fn wf(&self) -> bool {
        forall|i: int| 0 <= i < self.pending().len() ==> (#[trigger] self.pending()[i]) is Record
    }

    /// How many records are pending, accumulated and not yet written.
    pub fn pending_len(&self) -> (n: usize)
        ensures
            n == self.pending().len(),
    {
        self.current_batch.len()
    }

    /// Builds a sink from one SCHEMA message with the output path given
    /// in full.  No file is created or opened here.
    pub(crate) fn with_path(schema_message: &Message, output_path: String, batch_size: usize)
        -> (r: Result<ParquetSink, Error>)
        ensures
            match r {
                Ok(s) => schema_fields(schema_message@) == Ok::<Seq<FieldV>, Error>(
                    s.schema_view(),
                ) && s.pending() =~= Seq::<MessageV>::empty() && s.size() == batch_size && s.wf()
                    && s.path() == output_path@,
                Err(e) => schema_fields(schema_message@) == Err::<Seq<FieldV>, Error>(e),
            },
    {
        let schema = match singer_schema_to_arrow(schema_message) {
            Ok(cs) => cs,
            Err(e) => {
                return Err(e);
            },
        };
        Ok(ParquetSink { schema, output_path, batch_size, current_batch: Vec::new() })
    }

    /// Builds a sink from one SCHEMA message, deriving the columnar
    /// schema exactly as the schema translator does and naming the
    /// output file `<stream>.parquet` under `base_dir`.  No file is
    /// created or opened here.
    pub fn new(schema_message: &Message, base_dir: &str, batch_size: usize) -> (r: Result<
        ParquetSink,
        Error,
    >)
        ensures
            match r {
                Ok(s) => schema_fields(schema_message@) == Ok::<Seq<FieldV>, Error>(
                    s.schema_view(),
                ) && s.pending() =~= Seq::<MessageV>::empty() && s.size() == batch_size && s.wf()
                    && (schema_message@ matches MessageV::Schema { stream, .. } && s.path()
                    == base_dir@ + "/"@ + stream + ".parquet"@),
                Err(e) => schema_fields(schema_message@) == Err::<Seq<FieldV>, Error>(e),
            },
    {
        let stream: &String = match schema_message {
            Message::SCHEMA { stream, .. } => stream,
            _ => {
                return Err(Error::WrongMessageKind);
            },
        };
        let mut output_path: String = base_dir.to_owned();
        output_path.append("/");
        output_path.append(stream.as_str());
        output_path.append(".parquet");
        ParquetSink::with_path(schema_message, output_path, batch_size)
    }

    /// Appends a RECORD message to the pending batch; any other variant
    /// is passed over silently.  Reaching the batch size triggers a
    /// flush before returning: on its success the pending batch is
    /// empty, on its failure the appended batch is kept and the write's
    /// error is returned.
    pub fn add_record(&mut self, record: Message) -> (r: Result<(), Error>)
        requires
            old(self).wf(),
        ensures
            final(self).wf(),
            final(self).schema_view() == old(self).schema_view(),
            final(self).path() == old(self).path(),
            final(self).size() == old(self).size(),
            !(record@ is Record) ==> r is Ok && final(self).pending() == old(self).pending(),
            record@ is Record ==> {
                let nb = old(self).pending().push(record@);
                if nb.len() < old(self).size() {
                    r is Ok && final(self).pending() == nb
                } else {
                    (r is Ok ==> final(self).pending() =~= Seq::<MessageV>::empty()) && (
                    r matches Err(e) ==> final(self).pending() == nb && (e == Error::Io || e
                        == Error::Codec))
                }
            },
    {
        let is_record = match &record {
            Message::RECORD { .. } => true,
            _ => false,
        };
        if is_record {
            self.current_batch.push(record);
            proof {
                assert forall|i: int| 0 <= i < self.pending().len() implies (#[trigger] self
                    .pending()[i]) is Record by {
                    if i < old(self).pending().len() {
                        assert(self.current_batch@[i] == old(self).current_batch@[i]);
                        assert(old(self).pending()[i] is Record);
                    }
                }
                assert(self.pending() =~= old(self).pending().push(
                    self.current_batch@.last()@,
                ));
            }
            if self.current_batch.len() >= self.batch_size {
                return self.flush();
            }
        }
        Ok(())
    }

    /// Writes the pending records, if any, as one columnar batch to a
    /// freshly created file at the sink's path, then clears the pending
    /// batch.  An empty pending batch is a no-op: nothing is written and
    /// no error is raised.  On failure the pending batch is kept intact.
    pub fn flush(&mut self) -> (r: Result<(), Error>)
        requires
            old(self).wf(),
        ensures
            final(self).wf(),
            final(self).schema_view() == old(self).schema_view(),
            final(self).path() == old(self).path(),
            final(self).size() == old(self).size(),
            old(self).pending().len() == 0 ==> r is Ok && final(self).pending() == old(
                self,
            ).pending(),
            r is Ok ==> final(self).pending() =~= Seq::<MessageV>::empty(),
            r matches Err(e) ==> final(self).pending() == old(self).pending() && (e == Error::Io
                || e == Error::Codec),
    {
        if self.current_batch.len() == 0 {
            return Ok(());
        }
        let batch: ColumnBatch = self.current_batch.to_record_batch(&self.schema);
        let aschema = arrow_schema(&self.schema);
        let bytes = match parquet_bytes(&aschema, &batch.columns) {
            Ok(b) => b,
            Err(e) => {
                return Err(e);
            },
        };
        match write_file(&self.output_path, &bytes) {
            Ok(_) => {
                self.current_batch = Vec::new();
                proof {
                    assert(self.pending() =~= Seq::<MessageV>::empty());
                }
                Ok(())
            },
            Err(e) => Err(e),
        }
    }
}

} // verus!

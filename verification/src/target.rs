//! A batched columnar sink whose output path is given in full rather
//! than derived from the stream's name.

use vstd::prelude::*;

use crate::message::{Message, MessageV};
use crate::schema::{Error, FieldV, schema_fields};
use crate::sink::ParquetSink;

verus! {

/// A batched columnar sink bound to one stream's schema and one fully
/// qualified output path.
pub struct ParquetTarget {
    inner: ParquetSink,
}

impl ParquetTarget {
    /// The derived columnar schema the target writes with.
    pub closed spec fn schema_view(&self) -> Seq<FieldV> {
        self.inner.schema_view()
    }

    /// Where the target writes its file.
    pub closed spec fn path(&self) -> Seq<char> {
        self.inner.path()
    }

    /// The pending count at which `add_record` flushes on its own.
    pub closed spec fn size(&self) -> usize {
        self.inner.size()
    }

    /// The RECORD messages accumulated and not yet written.
    pub closed spec fn pending(&self) -> Seq<MessageV> {
        self.inner.pending()
    }

    /// Every pending message is a RECORD.
    pub closed spec fn wf(&self) -> bool {
        self.inner.wf()
    }

    /// What the target's well-formedness says of its pending batch.
    pub proof fn lemma_wf_pending(&self)
        ensures
            self.wf() <==> (forall|i: int|
                0 <= i < self.pending().len() ==> (#[trigger] self.pending()[i]) is Record),
    {
    }

    /// How many records are pending, accumulated and not yet written.
    pub fn pending_len(&self) -> (n: usize)
        ensures
            n == self.pending().len(),
    {
        self.inner.pending_len()
    }

    /// Builds a target from one SCHEMA message, deriving the columnar
    /// schema exactly as the schema translator does.  No file is created
    /// or opened here.
    pub fn new(schema_message: &Message, output_path: String, batch_size: usize) -> (r: Result<
        ParquetTarget,
        Error,
    >)
        ensures
            match r {
                Ok(t) => schema_fields(schema_message@) == Ok::<Seq<FieldV>, Error>(
                    t.schema_view(),
                ) && t.pending() =~= Seq::<MessageV>::empty() && t.size() == batch_size && t.wf()
                    && t.path() == output_path@,
                Err(e) => schema_fields(schema_message@) == Err::<Seq<FieldV>, Error>(e),
            },
    {
        match ParquetSink::with_path(schema_message, output_path, batch_size) {
            Ok(inner) => Ok(ParquetTarget { inner }),
            Err(e) => Err(e),
        }
    }

    /// Appends a RECORD message to the pending batch; any other variant
    /// is passed over silently.  Reaching the batch size triggers a
    /// flush before returning: on its success the pending batch is
    /// empty, on its failure the appended batch is kept and the write's
    /// error is returned.
    pub fn add_record(&mut self, record: Message) -> (r: Result<(), Error>)
        requires
            old(self).wf(),
        ensures
            final(self).wf(),
            final(self).schema_view() == old(self).schema_view(),
            final(self).path() == old(self).path(),
            final(self).size() == old(self).size(),
            !(record@ is Record) ==> r is Ok && final(self).pending() == old(self).pending(),
            record@ is Record ==> {
                let nb = old(self).pending().push(record@);
                if nb.len() < old(self).size() {
                    r is Ok && final(self).pending() == nb
                } else {
                    (r is Ok ==> final(self).pending() =~= Seq::<MessageV>::empty()) && (
                    r matches Err(e) ==> final(self).pending() == nb && (e == Error::Io || e
                        == Error::Codec))
                }
            },
    {
        self.inner.add_record(record)
    }

    /// Writes the pending records, if any, as one columnar batch to a
    /// freshly created file at the target's path, then clears the
    /// pending batch.  An empty pending batch is a no-op: nothing is
    /// written and no error is raised.  On failure the pending batch is
    /// kept intact.
    pub fn flush(&mut self) -> (r: Result<(), Error>)
        requires
            old(self).wf(),
        ensures
            final(self).wf(),
            final(self).schema_view() == old(self).schema_view(),
            final(self).path() == old(self).path(),
            final(self).size() == old(self).size(),
            old(self).pending().len() == 0 ==> r is Ok && final(self).pending() == old(
                self,
            ).pending(),
            r is Ok ==> final(self).pending() =~= Seq::<MessageV>::empty(),
            r matches Err(e) ==> final(self).pending() == old(self).pending() && (e == Error::Io
                || e == Error::Codec),
    {
        self.inner.flush()
    }
}

} // verus!

//! The protocol dispatcher: a single-pass consumer of message lines.
//!
//! A consumer implements the five typed hooks; `process_line` decodes
//! one line and hands the decoded variant's fields to exactly one hook,
//! in input order.  The first decode failure is propagated at once and
//! stops processing: no hook runs for a bad line and no later line is
//! examined.
//!
//! Which events reached the consumer is part of the contract: the trait
//! carries an abstract event log, `consumed`, and every hook's contract
//! appends its event to it, so a dispatcher caller knows exactly which
//! messages were handed over, and in what order.

use vstd::prelude::*;

use crate::json::Json;
use crate::message::{
    BatchEncoding, DecodeError, Message, MessageV, decode_spec, view_opt_string, view_strings,
};

verus! {

/// Every line decodes to a message.
pub open spec fn all_decodable(lines: Seq<Seq<char>>) -> bool {
    forall|i: int| 0 <= i < lines.len() ==> decode_spec(#[trigger] lines[i]) is Ok
}

/// The messages a sequence of lines decodes to, in order.  Meaningful
/// where every line decodes.
pub open spec fn decoded_msgs(lines: Seq<Seq<char>>) -> Seq<MessageV> {
    Seq::new(lines.len(), |i: int| decode_spec(lines[i])->Ok_0)
}

/// Processing stopped at line `i`: every earlier line was decoded and
/// handed over, growing the consumer's log from `before` to `after`;
/// line `i` either failed to decode — its error is the run's result and
/// no hook saw it — or was decoded and handed over, and the consumer's
/// own answer ended the run.
pub open spec fn stopped_at(
    lines: Seq<Seq<char>>,
    i: int,
    before: Seq<MessageV>,
    after: Seq<MessageV>,
    e: DecodeError,
) -> bool {
    0 <= i < lines.len() && (forall|k: int| 0 <= k < i ==> decode_spec(#[trigger] lines[k]) is Ok)
        && match decode_spec(lines[i]) {
        Err(e2) => e == e2 && after == before + decoded_msgs(lines.take(i)),
        Ok(m) => after == before + decoded_msgs(lines.take(i)).push(m),
    }
}

/// A consumer of protocol messages: one hook per variant.  `inv` is the
/// consumer's own well-formedness, established by its constructor and
/// preserved by every hook; `consumed` is the sequence of events the
/// consumer has been handed so far, and each hook appends exactly its
/// own event to it.
pub trait MessageReader: Sized {
    /// The consumer's well-formedness.
    spec fn inv(&self) -> bool;

    /// The events handed to the consumer so far, in order.
    spec fn consumed(&self) -> Seq<MessageV>;

    /// Consumes one RECORD event.
    fn process_record(
        &mut self,
        stream: String,
        record: Json,
        time_extracted: Option<String>,
        version: u64,
    ) -> (r: Result<(), DecodeError>)
        requires
            old(self).inv(),
        ensures
            final(self).inv(),
            final(self).consumed() == old(self).consumed().push(
                MessageV::Record {
                    stream: stream@,
                    record: record@,
                    time_extracted: view_opt_string(time_extracted),
                    version,
                },
            ),
    ;

    /// Consumes one SCHEMA event.
    fn process_schema(
        &mut self,
        stream: String,
        schema: Json,
        key_properties: Vec<String>,
        bookmark_properties: Vec<String>,
    ) -> (r: Result<(), DecodeError>)
        requires
            old(self).inv(),
        ensures
            final(self).inv(),
            final(self).consumed() == old(self).consumed().push(
                MessageV::Schema {
                    stream: stream@,
                    schema: schema@,
                    key_properties: view_strings(key_properties@),
                    bookmark_properties: view_strings(bookmark_properties@),
                },
            ),
    ;

    /// Consumes one STATE event.
    fn process_state(&mut self, value: Json) -> (r: Result<(), DecodeError>)
        requires
            old(self).inv(),
        ensures
            final(self).inv(),
            final(self).consumed() == old(self).consumed().push(
                MessageV::State { value: value@ },
            ),
    ;

    /// Consumes one ACTIVATE_VERSION event.
    fn process_activate_version(&mut self, stream: String, version: u64) -> (r: Result<
        (),
        DecodeError,
    >)
        requires
            old(self).inv(),
        ensures
            final(self).inv(),
            final(self).consumed() == old(self).consumed().push(
                MessageV::ActivateVersion { stream: stream@, version },
            ),
    ;

    /// Consumes one BATCH event.
    fn process_batch(
        &mut self,
        stream: String,
        manifest: Vec<String>,
        encoding: BatchEncoding,
    ) -> (r: Result<(), DecodeError>)
        requires
            old(self).inv(),
        ensures
            final(self).inv(),
            final(self).consumed() == old(self).consumed().push(
                MessageV::Batch {
                    stream: stream@,
                    manifest: view_strings(manifest@),
                    encoding: encoding@,
                },
            ),
    ;

    /// Decodes one line and hands the decoded variant's fields to
    /// exactly one hook, selected by the variant: the decoded message is
    /// appended to `consumed`, whatever the hook answers.  A decode
    /// failure is returned unchanged, and no hook runs for it.
    fn process_line(&mut self, line: &str) -> (r: Result<(), DecodeError>)
        requires
            old(self).inv(),
        ensures
            final(self).inv(),
            decode_spec(line@) matches Err(e) ==> r == Err::<(), DecodeError>(e) && *final(self)
                == *old(self),
            decode_spec(line@) matches Ok(m) ==> final(self).consumed() == old(
                self,
            ).consumed().push(m),
    {
        let message = match Message::from_string(line) {
            Ok(m) => m,
            Err(e) => {
                return Err(e);
            },
        };
        match message {
            Message::RECORD { stream, record, time_extracted, version } => self.process_record(
                stream,
                record,
                time_extracted,
                version,
            ),
            Message::SCHEMA { stream, schema, key_properties, bookmark_properties } => self
                .process_schema(stream, schema, key_properties, bookmark_properties),
            Message::STATE { value } => self.process_state(value),
            Message::ACTIVATE_VERSION { stream, version } => self.process_activate_version(
                stream,
                version,
            ),
            Message::BATCH { stream, manifest, encoding } => self.process_batch(
                stream,
                manifest,
                encoding,
            ),
        }
    }

    /// Processes a sequence of lines in order, stopping at the first
    /// failure.  On success every line was decodable and the consumer
    /// was handed exactly the decoded messages, in input order.  On
    /// failure the consumer was handed exactly the messages of the
    /// decodable prefix: nothing past the failing line reaches a hook,
    /// and a decode failure surfaces as that very error.
    #[verifier::loop_isolation(false)]
    fn process_lines(&mut self, lines: &Vec<String>) -> (r: Result<(), DecodeError>)
        requires
            old(self).inv(),
        ensures
            final(self).inv(),
            r is Ok ==> all_decodable(view_strings(lines@)) && final(self).consumed() == old(
                self,
            ).consumed() + decoded_msgs(view_strings(lines@)),
            r matches Err(e) ==> exists|i: int|
                #[trigger] stopped_at(
                    view_strings(lines@),
                    i,
                    old(self).consumed(),
                    final(self).consumed(),
                    e,
                ),
    {
        let ghost lv = view_strings(lines@);
        proof {
            assert(decoded_msgs(lv.take(0)) =~= Seq::<MessageV>::empty());
            assert(self.consumed() + decoded_msgs(lv.take(0)) =~= self.consumed());
        }
        let mut i: usize = 0;
        while i < lines.len()
            invariant
                0 <= i <= lines@.len(),
                self.inv(),
                forall|k: int| 0 <= k < i ==> decode_spec(#[trigger] lv[k]) is Ok,
                self.consumed() == old(self).consumed() + decoded_msgs(lv.take(i as int)),
            decreases lines@.len() - i,
        {
            let ghost pre = self.consumed();
            match self.process_line(lines[i].as_str()) {
                Ok(_) => {
                    proof {
                        let m = decode_spec(lv[i as int])->Ok_0;
                        assert(self.consumed() == pre.push(m));
                        assert(decoded_msgs(lv.take(i as int + 1)) =~= decoded_msgs(
                            lv.take(i as int),
                        ).push(m));
                        assert(self.consumed() =~= old(self).consumed() + decoded_msgs(
                            lv.take(i as int + 1),
                        ));
                    }
                },
                Err(e) => {
                    proof {
                        assert(stopped_at(lv, i as int, old(self).consumed(), self.consumed(), e));
                    }
                    return Err(e);
                },
            }
            i = i + 1;
        }
        proof {
            assert(lv.take(lines@.len() as int) =~= lv);
        }
        Ok(())
    }
}

} // verus!

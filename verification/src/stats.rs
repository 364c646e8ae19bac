//! A diagnostic consumer: per-stream event counts and the last observed
//! checkpoint.
//!
//! The reader counts, for every stream, how many SCHEMA, RECORD,
//! ACTIVATE_VERSION and BATCH events it saw, and keeps the value of the
//! latest STATE message (last write wins).  A counter sticks at its
//! maximum rather than wrap.

use vstd::prelude::*;

use crate::json::{Json, JsonV};
use crate::message::{BatchEncoding, DecodeError, MessageV, view_strings, view_opt_string};
use crate::reader::MessageReader;

verus! {

/// Which per-stream counter an event bumps.
#[derive(Clone, Copy, Debug, PartialEq, Eq, Structural)]
pub enum EventKind {
    Schema,
    Record,
    ActivateVersion,
    Batch,
}

/// Per-stream event counts.
#[derive(Clone, Copy, Debug, PartialEq, Eq, Structural)]
pub struct Counter {
    pub schema: u32,
    pub record: u32,
    pub activate_version: u32,
    pub batch: u32,
}

impl Counter {
    /// A counter with every count at zero.
    pub fn new() -> (c: Counter)
        ensures
            c == zero_counter(),
    {
        Counter { schema: 0, record: 0, activate_version: 0, batch: 0 }
    }
}

pub open spec fn zero_counter() -> Counter {
    Counter { schema: 0, record: 0, activate_version: 0, batch: 0 }
}

/// One more event, sticking at the maximum rather than wrapping.
pub open spec fn bump(c: u32) -> u32 {
    if c < u32::MAX {
        (c + 1) as u32
    } else {
        c
    }
}

/// The count a counter holds for one event kind.
pub open spec fn kind_count(c: Counter, k: EventKind) -> u32 {
    match k {
        EventKind::Schema => c.schema,
        EventKind::Record => c.record,
        EventKind::ActivateVersion => c.activate_version,
        EventKind::Batch => c.batch,
    }
}

/// The counter after one more event of the given kind.
pub open spec fn bump_kind(c: Counter, k: EventKind) -> Counter {
    match k {
        EventKind::Schema => Counter { schema: bump(c.schema), ..c },
        EventKind::Record => Counter { record: bump(c.record), ..c },
        EventKind::ActivateVersion => Counter { activate_version: bump(c.activate_version), ..c },
        EventKind::Batch => Counter { batch: bump(c.batch), ..c },
    }
}

/// The stream table after one event for `name`: the first entry carrying
/// `name` is bumped; a stream not seen before is appended with a fresh
/// counter.
pub open spec fn apply_stream_event(
    s: Seq<(Seq<char>, Counter)>,
    name: Seq<char>,
    k: EventKind,
) -> Seq<(Seq<char>, Counter)>
    decreases s.len(),
{
    if s.len() == 0 {
        seq![(name, bump_kind(zero_counter(), k))]
    } else if s[0].0 == name {
        seq![(s[0].0, bump_kind(s[0].1, k))] + s.drop_first()
    } else {
        seq![s[0]] + apply_stream_event(s.drop_first(), name, k)
    }
}

/// The mathematical view of the whole statistics state.
pub struct StatsV {
    pub streams: Seq<(Seq<char>, Counter)>,
    pub state_count: u32,
    pub last_seen: JsonV,
}

/// The state before any message: no streams, no checkpoints, a null
/// last-seen value.
pub open spec fn init_stats() -> StatsV {
    StatsV { streams: Seq::empty(), state_count: 0, last_seen: JsonV::Null }
}

/// The stream and counter kind an event touches, if it is a per-stream
/// event.
pub open spec fn event_kind_of(m: MessageV) -> Option<(Seq<char>, EventKind)> {
    match m {
        MessageV::Schema { stream, .. } => Some((stream, EventKind::Schema)),
        MessageV::Record { stream, .. } => Some((stream, EventKind::Record)),
        MessageV::ActivateVersion { stream, .. } => Some((stream, EventKind::ActivateVersion)),
        MessageV::Batch { stream, .. } => Some((stream, EventKind::Batch)),
        MessageV::State { .. } => None,
    }
}

/// The statistics state after one message.
pub open spec fn apply_msg(st: StatsV, m: MessageV) -> StatsV {
    match m {
        MessageV::State { value } => StatsV {
            streams: st.streams,
            state_count: bump(st.state_count),
            last_seen: value,
        },
        _ => match event_kind_of(m) {
            Option::Some((name, k)) => StatsV {
                streams: apply_stream_event(st.streams, name, k),
                state_count: st.state_count,
                last_seen: st.last_seen,
            },
            Option::None => st,
        },
    }
}

/// The statistics state after a sequence of messages, in order.
pub open spec fn apply_msgs(st: StatsV, ms: Seq<MessageV>) -> StatsV
    decreases ms.len(),
{
    if ms.len() == 0 {
        st
    } else {
        apply_msg(apply_msgs(st, ms.drop_last()), ms.last())
    }
}

// ---------------------------------------------------------------------
// Executable state.
// ---------------------------------------------------------------------

/// The checkpoint summary: how many STATE messages arrived, and the
/// value of the latest one.
#[derive(Debug, PartialEq)]
pub struct StateStats {
    count: u32,
    pub last_seen: Json,
}

/// The mathematical view of a `StateStats`.
pub struct StateStatsV {
    pub count: u32,
    pub last_seen: JsonV,
}

impl View for StateStats {
    type V = StateStatsV;

    closed spec fn view(&self) -> StateStatsV {
        StateStatsV { count: self.count, last_seen: self.last_seen@ }
    }
}

impl StateStats {
    /// How many STATE messages arrived.
    pub fn count(&self) -> (r: u32)
        ensures
            r == self@.count,
    {
        self.count
    }
}

/// The views of the stream table's entries.
pub open spec fn view_entries(s: Seq<(String, Counter)>) -> Seq<(Seq<char>, Counter)> {
    Seq::new(s.len(), |i: int| (s[i].0@, s[i].1))
}

/// The whole statistics state: one counter per stream, in order of first
/// appearance, and the checkpoint summary.
#[derive(Debug, PartialEq)]
pub struct Stats {
    streams: Vec<(String, Counter)>,
    pub state: StateStats,
}

impl View for Stats {
    type V = StatsV;

    closed spec fn view(&self) -> StatsV {
        StatsV {
            streams: view_entries(self.streams@),
            state_count: self.state.count,
            last_seen: self.state.last_seen@,
        }
    }
}

/// The counter of the first entry carrying `name`, if any.
pub open spec fn find_counter(s: Seq<(Seq<char>, Counter)>, name: Seq<char>) -> Option<Counter>
    decreases s.len(),
{
    if s.len() == 0 {
        None
    } else if s[0].0 == name {
        Some(s[0].1)
    } else {
        find_counter(s.drop_first(), name)
    }
}

impl Stats {
    /// The checkpoint summary; its view agrees with the statistics view,
    /// so the summary's getters connect to the proved state.
    pub fn state_summary(&self) -> (r: &StateStats)
        ensures
            r@.count == self@.state_count,
            r@.last_seen == self@.last_seen,
    {
        &self.state
    }

    fn new() -> (s: Stats)
        ensures
            s@ == init_stats(),
    {
        let s = Stats {
            streams: Vec::new(),
            state: StateStats { count: 0, last_seen: Json::Null },
        };
        proof {
            assert(s@.streams =~= init_stats().streams);
        }
        s
    }

    /// How many streams have been seen.
    pub fn streams_len(&self) -> (n: usize)
        ensures
            n == self@.streams.len(),
    {
        self.streams.len()
    }

    /// The streams seen so far with their counters, in order of first
    /// appearance.
    pub fn entries(&self) -> (r: &Vec<(String, Counter)>)
        ensures
            view_entries(r@) == self@.streams,
    {
        &self.streams
    }

    /// The counts of one stream, if it has been seen.
    pub fn counter_for(&self, stream: &str) -> (r: Option<Counter>)
        ensures
            r == find_counter(self@.streams, stream@),
    {
        let ghost sv = self@.streams;
        proof {
            assert(sv.skip(0) =~= sv);
        }
        let mut i: usize = 0;
        while i < self.streams.len()
            invariant
                0 <= i <= self.streams@.len(),
                sv == self@.streams,
                sv.len() == self.streams@.len(),
                forall|k: int| 0 <= k < sv.len() ==> sv[k] == (self.streams@[k].0@, self.streams@[k].1),
                find_counter(sv, stream@) == find_counter(sv.skip(i as int), stream@),
            decreases self.streams@.len() - i,
        {
            proof {
                assert(sv.skip(i as int)[0] == sv[i as int]);
                assert(sv.skip(i as int).drop_first() =~= sv.skip(i as int + 1));
            }
            if compare_str(&self.streams[i].0, stream) {
                return Some(self.streams[i].1);
            }
            i = i + 1;
        }
        proof {
            assert(sv.skip(i as int).len() == 0);
        }
        None
    }
}

/// Compares a stream key to a name.
fn compare_str(a: &String, b: &str) -> (r: bool)
    ensures
        r == (a@ == b@),
{
    *a == b.to_owned()
}

/// Bumps one stream's counter in the table, first match wins; a stream
/// not seen before is appended with a fresh counter.
#[verifier::loop_isolation(false)]
fn bump_stream(streams: &mut Vec<(String, Counter)>, stream: String, k: EventKind)
    ensures
        view_entries(final(streams)@) == apply_stream_event(
            view_entries(old(streams)@),
            stream@,
            k,
        ),
{
    let ghost sv = view_entries(streams@);
    proof {
        lemma_apply_skip(sv, stream@, k, 0);
        assert(sv.skip(0) =~= sv);
        assert(sv.take(0) =~= Seq::<(Seq<char>, Counter)>::empty());
        assert(sv.take(0) + apply_stream_event(sv.skip(0), stream@, k) =~= apply_stream_event(
            sv,
            stream@,
            k,
        ));
    }
    let n: usize = streams.len();
    let mut i: usize = 0;
    while i < n
        invariant
            0 <= i <= n,
            n == streams@.len(),
            streams@ == old(streams)@,
            sv == view_entries(streams@),
            forall|j: int| 0 <= j < i ==> (#[trigger] sv[j]).0 != stream@,
        decreases n - i,
    {
        if compare_str(&streams[i].0, stream.as_str()) {
            let c: Counter = streams[i].1;
            let key: String = streams[i].0.clone();
            let updated: Counter = bump_counter(&c, k);
            streams[i] = (key, updated);
            proof {
                lemma_apply_skip(sv, stream@, k, i as int);
                assert(sv.skip(i as int)[0] == sv[i as int]);
                assert(sv.skip(i as int).drop_first() =~= sv.skip(i as int + 1));
                assert(apply_stream_event(sv.skip(i as int), stream@, k) =~= seq![
                    (sv[i as int].0, bump_kind(sv[i as int].1, k)),
                ] + sv.skip(i as int + 1));
                assert(view_entries(streams@) =~= sv.take(i as int) + (seq![
                    (sv[i as int].0, bump_kind(sv[i as int].1, k)),
                ] + sv.skip(i as int + 1)));
            }
            return ;
        }
        i = i + 1;
    }
    let ghost sname = stream@;
    proof {
        lemma_apply_skip(sv, sname, k, sv.len() as int);
        assert(sv.skip(sv.len() as int).len() == 0);
        assert(sv.take(sv.len() as int) =~= sv);
    }
    let fresh = bump_counter(&Counter::new(), k);
    streams.push((stream, fresh));
    proof {
        assert(view_entries(streams@) =~= sv + seq![(sname, bump_kind(zero_counter(), k))]);
    }
}

/// Bumps one count of a counter, sticking at the maximum.
fn bump_counter(c: &Counter, k: EventKind) -> (r: Counter)
    ensures
        r == bump_kind(*c, k),
{
    let mut r: Counter = *c;
    match k {
        EventKind::Schema => {
            if r.schema < u32::MAX {
                r.schema = r.schema + 1;
            }
        },
        EventKind::Record => {
            if r.record < u32::MAX {
                r.record = r.record + 1;
            }
        },
        EventKind::ActivateVersion => {
            if r.activate_version < u32::MAX {
                r.activate_version = r.activate_version + 1;
            }
        },
        EventKind::Batch => {
            if r.batch < u32::MAX {
                r.batch = r.batch + 1;
            }
        },
    }
    r
}

/// If no entry before `i` carries `name`, the table after an event for
/// `name` keeps its first `i` entries and applies the event to the rest.
proof fn lemma_apply_skip(s: Seq<(Seq<char>, Counter)>, name: Seq<char>, k: EventKind, i: int)
    requires
        0 <= i <= s.len(),
        forall|j: int| 0 <= j < i ==> (#[trigger] s[j]).0 != name,
    ensures
        apply_stream_event(s, name, k) == s.take(i) + apply_stream_event(s.skip(i), name, k),
    decreases i,
{
    if i == 0 {
        assert(s.skip(0) =~= s);
        assert(s.take(0) + apply_stream_event(s.skip(0), name, k) =~= apply_stream_event(
            s,
            name,
            k,
        ));
    } else {
        assert(s[0].0 != name);
        assert(s.len() > 0);
        assert forall|j: int| 0 <= j < i - 1 implies (#[trigger] s.drop_first()[j]).0 != name by {
            assert(s.drop_first()[j] == s[j + 1]);
        }
        lemma_apply_skip(s.drop_first(), name, k, i - 1);
        assert(s.drop_first().take(i - 1) =~= s.take(i).drop_first());
        assert(s.drop_first().skip(i - 1) =~= s.skip(i));
        assert(apply_stream_event(s, name, k) == seq![s[0]] + apply_stream_event(
            s.drop_first(),
            name,
            k,
        ));
        assert(seq![s[0]] + (s.drop_first().take(i - 1) + apply_stream_event(
            s.drop_first().skip(i - 1),
            name,
            k,
        )) =~= s.take(i) + apply_stream_event(s.skip(i), name, k));
    }
}

/// The diagnostic consumer: counts events per stream and keeps the
/// latest checkpoint.  `seen` is the dispatcher's abstract event log,
/// carried for specification only; the reader's invariant ties the
/// counted statistics to the fold of that log.
pub struct StatsReader {
    pub stats: Stats,
    /// The events handed to the reader so far; specification only.
    pub seen: Ghost<Seq<MessageV>>,
}

impl StatsReader {
    pub fn new() -> (r: StatsReader)
        ensures
            r.stats@ == init_stats(),
            r.inv(),
            r.consumed() == Seq::<MessageV>::empty(),
    {
        StatsReader { stats: Stats::new(), seen: Ghost(Seq::empty()) }
    }
}

impl Default for StatsReader {
    fn default() -> (r: StatsReader)
        ensures
            r.stats@ == init_stats(),
            r.inv(),
            r.consumed() == Seq::<MessageV>::empty(),
    {
        StatsReader::new()
    }
}

impl MessageReader for StatsReader {
    /// The counted statistics are the fold of the events handed over.
    open spec fn inv(&self) -> bool {
        self.stats@ == apply_msgs(init_stats(), self.seen@)
    }

    open spec fn consumed(&self) -> Seq<MessageV> {
        self.seen@
    }

    fn process_record(
        &mut self,
        stream: String,
        record: Json,
        time_extracted: Option<String>,
        version: u64,
    ) -> (r: Result<(), DecodeError>)
        ensures
            r is Ok,
            final(self).stats@ == apply_msg(
                old(self).stats@,
                MessageV::Record {
                    stream: stream@,
                    record: record@,
                    time_extracted: view_opt_string(time_extracted),
                    version,
                },
            ),
    {
        let ghost m = MessageV::Record {
            stream: stream@,
            record: record@,
            time_extracted: view_opt_string(time_extracted),
            version,
        };
        bump_stream(&mut self.stats.streams, stream, EventKind::Record);
        self.seen = Ghost(self.seen@.push(m));
        proof {
            lemma_seen_step(old(self).stats@, old(self).seen@, m);
        }
        Ok(())
    }

    fn process_schema(
        &mut self,
        stream: String,
        schema: Json,
        key_properties: Vec<String>,
        bookmark_properties: Vec<String>,
    ) -> (r: Result<(), DecodeError>)
        ensures
            r is Ok,
            final(self).stats@ == apply_msg(
                old(self).stats@,
                MessageV::Schema {
                    stream: stream@,
                    schema: schema@,
                    key_properties: view_strings(key_properties@),
                    bookmark_properties: view_strings(bookmark_properties@),
                },
            ),
    {
        let ghost m = MessageV::Schema {
            stream: stream@,
            schema: schema@,
            key_properties: view_strings(key_properties@),
            bookmark_properties: view_strings(bookmark_properties@),
        };
        bump_stream(&mut self.stats.streams, stream, EventKind::Schema);
        self.seen = Ghost(self.seen@.push(m));
        proof {
            lemma_seen_step(old(self).stats@, old(self).seen@, m);
        }
        Ok(())
    }

    fn process_state(&mut self, value: Json) -> (r: Result<(), DecodeError>)
        ensures
            r is Ok,
            final(self).stats@ == apply_msg(
                old(self).stats@,
                MessageV::State { value: value@ },
            ),
    {
        let ghost m = MessageV::State { value: value@ };
        if self.stats.state.count < u32::MAX {
            self.stats.state.count = self.stats.state.count + 1;
        }
        self.stats.state.last_seen = value;
        self.seen = Ghost(self.seen@.push(m));
        proof {
            lemma_seen_step(old(self).stats@, old(self).seen@, m);
        }
        Ok(())
    }

    fn process_activate_version(&mut self, stream: String, version: u64) -> (r: Result<
        (),
        DecodeError,
    >)
        ensures
            r is Ok,
            final(self).stats@ == apply_msg(
                old(self).stats@,
                MessageV::ActivateVersion { stream: stream@, version },
            ),
    {
        let ghost m = MessageV::ActivateVersion { stream: stream@, version };
        bump_stream(&mut self.stats.streams, stream, EventKind::ActivateVersion);
        self.seen = Ghost(self.seen@.push(m));
        proof {
            lemma_seen_step(old(self).stats@, old(self).seen@, m);
        }
        Ok(())
    }

    fn process_batch(
        &mut self,
        stream: String,
        manifest: Vec<String>,
        encoding: BatchEncoding,
    ) -> (r: Result<(), DecodeError>)
        ensures
            r is Ok,
            final(self).stats@ == apply_msg(
                old(self).stats@,
                MessageV::Batch {
                    stream: stream@,
                    manifest: view_strings(manifest@),
                    encoding: encoding@,
                },
            ),
    {
        let ghost m = MessageV::Batch {
            stream: stream@,
            manifest: view_strings(manifest@),
            encoding: encoding@,
        };
        bump_stream(&mut self.stats.streams, stream, EventKind::Batch);
        self.seen = Ghost(self.seen@.push(m));
        proof {
            lemma_seen_step(old(self).stats@, old(self).seen@, m);
        }
        Ok(())
    }
}

/// Extending the event log by one message extends its fold by one step.
proof fn lemma_seen_step(st: StatsV, seen: Seq<MessageV>, m: MessageV)
    ensures
        st == apply_msgs(init_stats(), seen) ==> apply_msgs(init_stats(), seen.push(m))
            == apply_msg(st, m),
{
    assert(seen.push(m).drop_last() =~= seen);
    assert(seen.push(m).last() == m);
}

// ---------------------------------------------------------------------
// The consumer's laws.
// ---------------------------------------------------------------------

/// The total of one kind's counts over every stream of the table.
pub open spec fn sum_kind(s: Seq<(Seq<char>, Counter)>, k: EventKind) -> int
    decreases s.len(),
{
    if s.len() == 0 {
        0
    } else {
        kind_count(s[0].1, k) + sum_kind(s.drop_first(), k)
    }
}

/// How many messages of a sequence are per-stream events of one kind.
pub open spec fn count_kind(ms: Seq<MessageV>, k: EventKind) -> int
    decreases ms.len(),
{
    if ms.len() == 0 {
        0
    } else {
        count_kind(ms.drop_last(), k) + match event_kind_of(ms.last()) {
            Option::Some((name, k2)) => if k2 == k {
                1int
            } else {
                0int
            },
            Option::None => 0int,
        }
    }
}

/// How many messages of a sequence are STATE messages.
pub open spec fn count_state(ms: Seq<MessageV>) -> int
    decreases ms.len(),
{
    if ms.len() == 0 {
        0
    } else {
        count_state(ms.drop_last()) + if ms.last() is State {
            1int
        } else {
            0int
        }
    }
}

/// The value of the last STATE message of a sequence, null when there is
/// none.
pub open spec fn last_state_value(ms: Seq<MessageV>) -> JsonV
    decreases ms.len(),
{
    if ms.len() == 0 {
        JsonV::Null
    } else {
        match ms.last() {
            MessageV::State { value } => value,
            _ => last_state_value(ms.drop_last()),
        }
    }
}

proof fn lemma_sum_nonneg(s: Seq<(Seq<char>, Counter)>, k: EventKind)
    ensures
        0 <= sum_kind(s, k),
    decreases s.len(),
{
    if s.len() > 0 {
        lemma_sum_nonneg(s.drop_first(), k);
    }
}

proof fn lemma_sum_entry_le(s: Seq<(Seq<char>, Counter)>, k: EventKind, i: int)
    requires
        0 <= i < s.len(),
    ensures
        kind_count(s[i].1, k) <= sum_kind(s, k),
    decreases i,
{
    lemma_sum_nonneg(s.drop_first(), k);
    if i == 0 {
    } else {
        lemma_sum_entry_le(s.drop_first(), k, i - 1);
        assert(s.drop_first()[i - 1] == s[i]);
        lemma_sum_nonneg(s, k);
    }
}

proof fn lemma_bump_sum(s: Seq<(Seq<char>, Counter)>, name: Seq<char>, k: EventKind, k2: EventKind)
    requires
        sum_kind(s, k) < u32::MAX,
    ensures
        sum_kind(apply_stream_event(s, name, k), k2) == sum_kind(s, k2) + if k2 == k {
            1int
        } else {
            0int
        },
    decreases s.len(),
{
    let a = apply_stream_event(s, name, k);
    let ghost delta: int = if k2 == k { 1int } else { 0int };
    if s.len() == 0 {
        assert(a == seq![(name, bump_kind(zero_counter(), k))]);
        assert(a.drop_first() =~= Seq::<(Seq<char>, Counter)>::empty());
        assert(a[0].1 == bump_kind(zero_counter(), k));
        assert(kind_count(bump_kind(zero_counter(), k), k2) == delta);
        assert(sum_kind(a.drop_first(), k2) == 0);
        assert(sum_kind(a, k2) == kind_count(a[0].1, k2) + sum_kind(a.drop_first(), k2));
        assert(sum_kind(a, k2) == sum_kind(s, k2) + delta);
    } else if s[0].0 == name {
        lemma_sum_entry_le(s, k, 0);
        lemma_sum_nonneg(s.drop_first(), k);
        assert(a == seq![(s[0].0, bump_kind(s[0].1, k))] + s.drop_first());
        assert(a[0] == (s[0].0, bump_kind(s[0].1, k)));
        assert(a.drop_first() =~= s.drop_first());
        assert(kind_count(s[0].1, k) < u32::MAX);
        assert(kind_count(bump_kind(s[0].1, k), k2) == kind_count(s[0].1, k2) + delta);
        assert(sum_kind(a, k2) == kind_count(a[0].1, k2) + sum_kind(a.drop_first(), k2));
        assert(sum_kind(s, k2) == kind_count(s[0].1, k2) + sum_kind(s.drop_first(), k2));
        assert(sum_kind(a.drop_first(), k2) == sum_kind(s.drop_first(), k2));
        assert(sum_kind(a, k2) == sum_kind(s, k2) + delta);
    } else {
        lemma_sum_nonneg(s.drop_first(), k);
        assert(kind_count(s[0].1, k) >= 0);
        lemma_bump_sum(s.drop_first(), name, k, k2);
        assert(a == seq![s[0]] + apply_stream_event(s.drop_first(), name, k));
        assert(a[0] == s[0]);
        assert(a.drop_first() =~= apply_stream_event(s.drop_first(), name, k));
        assert(sum_kind(a, k2) == kind_count(a[0].1, k2) + sum_kind(a.drop_first(), k2));
        assert(sum_kind(s, k2) == kind_count(s[0].1, k2) + sum_kind(s.drop_first(), k2));
        assert(sum_kind(a.drop_first(), k2) == sum_kind(s.drop_first(), k2) + delta);
        assert(sum_kind(a, k2) == sum_kind(s, k2) + delta);
    }
}

proof fn lemma_count_kind_bounds(ms: Seq<MessageV>, k: EventKind)
    ensures
        0 <= count_kind(ms, k) <= ms.len(),
        0 <= count_state(ms) <= ms.len(),
    decreases ms.len(),
{
    if ms.len() > 0 {
        lemma_count_kind_bounds(ms.drop_last(), k);
    }
}

proof fn lemma_stats_fold(ms: Seq<MessageV>, k: EventKind)
    requires
        ms.len() < u32::MAX,
    ensures
        sum_kind(apply_msgs(init_stats(), ms).streams, k) == count_kind(ms, k),
    decreases ms.len(),
{
    if ms.len() > 0 {
        let prev = apply_msgs(init_stats(), ms.drop_last());
        lemma_stats_fold(ms.drop_last(), k);
        lemma_count_kind_bounds(ms.drop_last(), k);
        match event_kind_of(ms.last()) {
            Option::Some((name, k2)) => {
                lemma_stats_fold(ms.drop_last(), k2);
                lemma_count_kind_bounds(ms.drop_last(), k2);
                lemma_bump_sum(prev.streams, name, k2, k);
            },
            Option::None => {},
        }
    }
}

proof fn lemma_stats_state(ms: Seq<MessageV>)
    requires
        ms.len() < u32::MAX,
    ensures
        apply_msgs(init_stats(), ms).state_count == count_state(ms),
        apply_msgs(init_stats(), ms).last_seen == last_state_value(ms),
    decreases ms.len(),
{
    if ms.len() > 0 {
        lemma_stats_state(ms.drop_last());
        lemma_count_kind_bounds(ms.drop_last(), EventKind::Schema);
    }
}

/// A consumer that processed any sequence of messages reports per-stream
/// counts that sum, over all streams, to the number of SCHEMA and of
/// RECORD events in the sequence, one checkpoint per STATE message, and
/// as its last-seen state the value of the final STATE message in input
/// order.
pub proof fn lemma_stats_summary(ms: Seq<MessageV>)
    requires
        ms.len() < u32::MAX,
    ensures
        sum_kind(apply_msgs(init_stats(), ms).streams, EventKind::Schema) == count_kind(
            ms,
            EventKind::Schema,
        ),
        sum_kind(apply_msgs(init_stats(), ms).streams, EventKind::Record) == count_kind(
            ms,
            EventKind::Record,
        ),
        apply_msgs(init_stats(), ms).state_count == count_state(ms),
        apply_msgs(init_stats(), ms).last_seen == last_state_value(ms),
{
    lemma_stats_fold(ms, EventKind::Schema);
    lemma_stats_fold(ms, EventKind::Record);
    lemma_stats_state(ms);
}

/// End to end: a reader that was handed any sequence of events reports
/// per-stream counts summing to the SCHEMA and RECORD totals of that
/// sequence, one checkpoint per STATE event, and as its last-seen state
/// the final STATE value in input order.
pub proof fn lemma_reader_summary(r: &StatsReader)
    requires
        r.inv(),
        r.consumed().len() < u32::MAX,
    ensures
        sum_kind(r.stats@.streams, EventKind::Schema) == count_kind(
            r.consumed(),
            EventKind::Schema,
        ),
        sum_kind(r.stats@.streams, EventKind::Record) == count_kind(
            r.consumed(),
            EventKind::Record,
        ),
        r.stats@.state_count == count_state(r.consumed()),
        r.stats@.last_seen == last_state_value(r.consumed()),
{
    lemma_stats_summary(r.consumed());
}

} // verus!

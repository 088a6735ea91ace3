use vstd::prelude::*;
use crate::sample::{Sample, table_rows};
use crate::time::Timestamp;

verus! {

/// The buffer that collects samples during an acquisition window.
///
/// Its view is `None` while idle and `Some(samples)` while collecting. The
/// sampler and the session handlers share it behind one lock, so that arming,
/// appending and draining happen one at a time, in one total order.
pub struct AcquisitionBuffer {
    collected: Option<Vec<Sample>>,
}

impl View for AcquisitionBuffer {
    type V = Option<Seq<Sample>>;

    closed spec fn view(&self) -> Option<Seq<Sample>> {
        match self.collected {
            Some(v) => Some(v@),
            None => None,
        }
    }
}

/// One operation on the buffer.
pub enum BufferOp {
    Arm,
    Append(Sample),
    Drain,
}

/// The state after appending `s`: collecting buffers grow, idle ones ignore it.
pub open spec fn after_append(st: Option<Seq<Sample>>, s: Sample) -> Option<Seq<Sample>> {
    match st {
        Some(q) => Some(q.push(s)),
        None => None,
    }
}

/// What a drain hands out: the collected samples, or nothing when idle.
pub open spec fn drained(st: Option<Seq<Sample>>) -> Seq<Sample> {
    match st {
        Some(q) => q,
        None => Seq::empty(),
    }
}

/// The state after one operation.
pub open spec fn step(st: Option<Seq<Sample>>, op: BufferOp) -> Option<Seq<Sample>> {
    match op {
        BufferOp::Arm => Some(Seq::empty()),
        BufferOp::Append(s) => after_append(st, s),
        BufferOp::Drain => None,
    }
}

/// The state after the operations `ops`, taken in order, from `st`.
pub open spec fn run(st: Option<Seq<Sample>>, ops: Seq<BufferOp>) -> Option<Seq<Sample>>
    decreases ops.len(),
{
    if ops.len() == 0 {
        st
    } else {
        step(run(st, ops.drop_last()), ops.last())
    }
}

/// The samples of the `Append` operations among `ops`, in order.
pub open spec fn appended_samples(ops: Seq<BufferOp>) -> Seq<Sample>
    decreases ops.len(),
{
    if ops.len() == 0 {
        Seq::empty()
    } else {
        match ops.last() {
            BufferOp::Append(s) => appended_samples(ops.drop_last()).push(s),
            _ => appended_samples(ops.drop_last()),
        }
    }
}

/// Every operation of `ops` from index `from` on is an `Append`.
pub open spec fn only_appends_from(ops: Seq<BufferOp>, from: int) -> bool {
    forall|j: int| from <= j < ops.len() ==> #[trigger] ops[j] is Append
}

impl AcquisitionBuffer {
    /// An idle buffer.
    pub fn new() -> (r: AcquisitionBuffer)
        ensures
            r@ is None,
    {
        AcquisitionBuffer { collected: None }
    }

    pub fn is_collecting(&self) -> (r: bool)
        ensures
            r == (self@ is Some),
    {
        self.collected.is_some()
    }

    /// Starts collecting from an empty sequence; a collection already in
    /// progress is discarded.
    pub fn arm(&mut self)
        ensures
            final(self)@ == step(old(self)@, BufferOp::Arm),
            final(self)@ == Some(Seq::<Sample>::empty()),
    {
        self.collected = Some(Vec::new());
    }

    /// Adds a sample at the end while collecting; does nothing while idle.
    pub fn append(&mut self, s: Sample)
        ensures
            final(self)@ == step(old(self)@, BufferOp::Append(s)),
            final(self)@ == after_append(old(self)@, s),
    {
        match &mut self.collected {
            Some(v) => v.push(s),
            None => {},
        }
    }

    /// Adds one sample per value of a reading, all with the reading's
    /// timestamp, in the order of the values; does nothing while idle.
    pub fn append_reading(&mut self, timestamp: Timestamp, values: &Vec<String>)
        ensures
            final(self)@ == match old(self)@ {
                Some(q) => Some(
                    q + values@.map_values(|v: String| Sample { timestamp, raw_value: v }),
                ),
                None => None,
            },
    {
        let ghost start = self@;
        let mut i: usize = 0;
        while i < values.len()
            invariant
                i <= values@.len(),
                self@ == match start {
                    Some(q) => Some(
                        q + values@.take(i as int).map_values(
                            |v: String| Sample { timestamp, raw_value: v },
                        ),
                    ),
                    None => None,
                },
            decreases values@.len() - i,
        {
            let s = Sample { timestamp, raw_value: values[i].clone() };
            self.append(s);
            proof {
                let f = |v: String| Sample { timestamp, raw_value: v };
                assert(values@.take(i + 1).map_values(f) =~= values@.take(i as int).map_values(
                    f,
                ).push(f(values@[i as int])));
                if let Some(q) = start {
                    assert(q + values@.take(i + 1).map_values(f) =~= (q + values@.take(
                        i as int,
                    ).map_values(f)).push(f(values@[i as int])));
                }
            }
            i = i + 1;
        }
        assert(values@.take(i as int) =~= values@);
    }

    /// Hands out the collected samples and returns to idle in one step; an
    /// idle buffer hands out nothing.
    pub fn drain(&mut self) -> (r: Vec<Sample>)
        ensures
            r@ == drained(old(self)@),
            final(self)@ == step(old(self)@, BufferOp::Drain),
            final(self)@ is None,
    {
        match self.collected.take() {
            Some(v) => v,
            None => Vec::new(),
        }
    }
}

/// A drain returns exactly the samples appended since the latest arm, in the
/// order they came, whatever the buffer held before: a sample appended before
/// the drain is in its result, one appended after it is not.
pub proof fn lemma_drain_after_window(st: Option<Seq<Sample>>, ops: Seq<BufferOp>, arm: int)
    requires
        0 <= arm < ops.len(),
        ops[arm] is Arm,
        only_appends_from(ops, arm + 1),
    ensures
        run(st, ops) == Some(appended_samples(ops.subrange(arm + 1, ops.len() as int))),
        drained(run(st, ops)) == appended_samples(ops.subrange(arm + 1, ops.len() as int)),
    decreases ops.len(),
{
    let window = ops.subrange(arm + 1, ops.len() as int);
    if ops.len() - 1 == arm {
        assert(window.len() == 0);
    } else {
        let prev = ops.drop_last();
        assert(ops[ops.len() - 1] is Append);
        lemma_drain_after_window(st, prev, arm);
        assert(window.drop_last() =~= prev.subrange(arm + 1, prev.len() as int));
    }
}

/// Samples appended after a drain and before the next arm are kept nowhere:
/// the buffer stays idle.
pub proof fn lemma_idle_ignores_appends(st: Option<Seq<Sample>>, ops: Seq<BufferOp>, drain: int)
    requires
        0 <= drain < ops.len(),
        ops[drain] is Drain,
        only_appends_from(ops, drain + 1),
    ensures
        run(st, ops) is None,
    decreases ops.len(),
{
    if ops.len() - 1 != drain {
        assert(ops[ops.len() - 1] is Append);
        lemma_idle_ignores_appends(st, ops.drop_last(), drain);
    }
}

/// When every operation is an `Append`, each contributes one sample.
proof fn lemma_all_appends_count(ops: Seq<BufferOp>)
    requires
        only_appends_from(ops, 0),
    ensures
        appended_samples(ops).len() == ops.len(),
    decreases ops.len(),
{
    if ops.len() > 0 {
        assert(ops[ops.len() - 1] is Append);
        lemma_all_appends_count(ops.drop_last());
    }
}

/// The table of a drain that follows an acquisition window has one row per
/// sample appended during the window, whatever else happened before it.
pub proof fn lemma_table_rows_match_window(st: Option<Seq<Sample>>, ops: Seq<BufferOp>, arm: int)
    requires
        0 <= arm < ops.len(),
        ops[arm] is Arm,
        only_appends_from(ops, arm + 1),
    ensures
        table_rows(drained(run(st, ops))).len() == appended_samples(
            ops.subrange(arm + 1, ops.len() as int),
        ).len(),
        table_rows(drained(run(st, ops))).len() == ops.len() - arm - 1,
{
    let window = ops.subrange(arm + 1, ops.len() as int);
    lemma_drain_after_window(st, ops, arm);
    assert forall|j: int| 0 <= j < window.len() implies #[trigger] window[j] is Append by {
        assert(ops[arm + 1 + j] is Append);
    }
    lemma_all_appends_count(window);
}

} // verus!

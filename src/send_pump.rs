//! The decisions of the send pump: when to drain the queue, which line to
//! write next, and what becomes of a line whose write failed.
//!
//! The caller owns the timer and the transport. On each tick of the poll
//! interval it calls [`SendPump::tick`]; while [`SendPump::next_line`] gives
//! a line it writes that line and reports the result with
//! [`SendPump::record`].
use vstd::prelude::*;
use crate::queue::{texts, OutboundQueue};

verus! {

/// Milliseconds to wait once at startup, before the first tick.
pub const WARM_UP_MS: u64 = 1000;

/// Milliseconds between two ticks.
pub const POLL_INTERVAL_MS: u64 = 100;

/// A tick: an idle pump with lines waiting takes them all as its batch;
/// otherwise nothing changes. States are pairs (queue, batch).
pub open spec fn tick_step(queue: Seq<Seq<char>>, batch: Seq<Seq<char>>) -> (Seq<Seq<char>>, Seq<Seq<char>>) {
    if batch.len() == 0 && queue.len() > 0 {
        (Seq::empty(), queue)
    } else {
        (queue, batch)
    }
}

/// The result of writing the first line of the batch: that line leaves the
/// batch, and when the write failed it goes to the tail of the queue.
pub open spec fn record_step(queue: Seq<Seq<char>>, batch: Seq<Seq<char>>, sent: bool) -> (Seq<Seq<char>>, Seq<Seq<char>>) {
    if batch.len() == 0 {
        (queue, batch)
    } else if sent {
        (queue, batch.drop_first())
    } else {
        (queue.push(batch[0]), batch.drop_first())
    }
}

/// The state after recording `outcomes` one after another.
pub open spec fn run_batch(queue: Seq<Seq<char>>, batch: Seq<Seq<char>>, outcomes: Seq<bool>) -> (Seq<Seq<char>>, Seq<Seq<char>>)
    decreases outcomes.len(),
{
    if outcomes.len() == 0 {
        (queue, batch)
    } else {
        let (q, b) = record_step(queue, batch, outcomes[0]);
        run_batch(q, b, outcomes.drop_first())
    }
}

/// The lines of `batch` that reach the device, in order, when the writes
/// turn out as `outcomes`.
pub open spec fn sent_lines(batch: Seq<Seq<char>>, outcomes: Seq<bool>) -> Seq<Seq<char>>
    decreases outcomes.len(),
{
    if outcomes.len() == 0 || batch.len() == 0 {
        Seq::empty()
    } else if outcomes[0] {
        seq![batch[0]].add(sent_lines(batch.drop_first(), outcomes.drop_first()))
    } else {
        sent_lines(batch.drop_first(), outcomes.drop_first())
    }
}

/// All writes succeeding, a batch goes out whole and in order, and nothing
/// returns to the queue.
pub proof fn lemma_batch_sent_in_order(queue: Seq<Seq<char>>, batch: Seq<Seq<char>>)
    ensures
        run_batch(queue, batch, Seq::new(batch.len(), |i: int| true)) == (queue, Seq::<Seq<char>>::empty()),
        sent_lines(batch, Seq::new(batch.len(), |i: int| true)) == batch,
    decreases batch.len(),
{
    let all = Seq::new(batch.len(), |i: int| true);
    if batch.len() == 0 {
        assert(batch =~= Seq::<Seq<char>>::empty());
    } else {
        assert(all.drop_first() =~= Seq::new(batch.drop_first().len(), |i: int| true));
        lemma_batch_sent_in_order(queue, batch.drop_first());
        assert(seq![batch[0]].add(batch.drop_first()) =~= batch);
    }
}

/// Without write failures the queue is first in, first out: an idle pump
/// drains every waiting line at its tick, and with every write succeeding
/// the lines reach the device in the order they were queued, none returning
/// to the queue.
pub proof fn lemma_fifo_without_failures(queued: Seq<Seq<char>>)
    requires
        queued.len() > 0,
    ensures
        tick_step(queued, Seq::empty()) == (Seq::<Seq<char>>::empty(), queued),
        run_batch(Seq::empty(), queued, Seq::new(queued.len(), |i: int| true)) == (
            Seq::<Seq<char>>::empty(),
            Seq::<Seq<char>>::empty(),
        ),
        sent_lines(queued, Seq::new(queued.len(), |i: int| true)) == queued,
{
    lemma_batch_sent_in_order(Seq::empty(), queued);
}

/// A line whose write failed goes behind lines queued before the failure was
/// recorded. With `a` and `b` drained together, `a` failing while `c` is
/// queued, and every later write succeeding, the device gets `b`, `c`, `a`.
pub proof fn lemma_failed_line_moves_to_tail(a: Seq<char>, b: Seq<char>, c: Seq<char>)
    ensures
        ({
            let (q1, b1) = tick_step(seq![a, b], Seq::empty());
            let (q2, b2) = record_step(q1.push(c), b1, false);
            let (q3, b3) = record_step(q2, b2, true);
            let (q4, b4) = tick_step(q3, b3);
            &&& b1 == seq![a, b]
            &&& q2 == seq![c, a]
            &&& b4 == seq![c, a]
            &&& q4 == Seq::<Seq<char>>::empty()
            &&& sent_lines(b1, seq![false, true]) + sent_lines(b4, seq![true, true]) == seq![b, c, a]
        }),
{
    let (q1, b1) = tick_step(seq![a, b], Seq::empty());
    assert(b1.drop_first() =~= seq![b]);
    assert(q1.push(c).push(a) =~= seq![c, a]);
    let (q4, b4) = tick_step(seq![c, a], Seq::empty());
    assert(b4.drop_first() =~= seq![a]);
    assert(seq![b].drop_first() =~= Seq::<Seq<char>>::empty());
    assert(seq![a].drop_first() =~= Seq::<Seq<char>>::empty());
    assert(seq![false, true].drop_first() =~= seq![true]);
    assert(seq![true, true].drop_first() =~= seq![true]);
    assert(seq![true].drop_first() =~= Seq::<bool>::empty());
    let none = Seq::<Seq<char>>::empty();
    assert(sent_lines(none, Seq::<bool>::empty()) == none);
    assert(sent_lines(seq![b], seq![true]) == seq![b].add(none));
    assert(sent_lines(seq![a], seq![true]) == seq![a].add(none));
    assert(seq![b].add(none) =~= seq![b]);
    assert(seq![a].add(none) =~= seq![a]);
    assert(sent_lines(b1, seq![false, true]) == sent_lines(seq![b], seq![true]));
    assert(sent_lines(b4, seq![true, true]) == seq![c].add(sent_lines(seq![a], seq![true])));
    assert(seq![c].add(seq![a]) =~= seq![c, a]);
    assert(seq![b] + seq![c, a] =~= seq![b, c, a]);
}

/// Between drains the queue never shrinks: an enqueue adds one line, and
/// recording a write, failed or not, removes none.
pub proof fn lemma_queue_grows_between_drains(
    queue: Seq<Seq<char>>,
    batch: Seq<Seq<char>>,
    line: Seq<char>,
    sent: bool,
)
    ensures
        queue.push(line).len() == queue.len() + 1,
        record_step(queue, batch, sent).0.len() >= queue.len(),
{
}

/// The send pump: idle, or holding the rest of a drained batch.
pub struct SendPump {
    batch: Vec<String>,
}

impl View for SendPump {
    type V = Seq<Seq<char>>;

    /// The lines of the current batch not yet written, in order.
    closed spec fn view(&self) -> Seq<Seq<char>> {
        texts(self.batch@)
    }
}

impl SendPump {
    /// An idle pump.
    pub fn new() -> (r: SendPump)
        ensures
            r@ == Seq::<Seq<char>>::empty(),
    {
        SendPump { batch: Vec::new() }
    }

    /// Whether no batch is in progress.
    pub fn is_idle(&self) -> (r: bool)
        ensures
            r == (self@.len() == 0),
    {
        self.batch.len() == 0
    }

    /// A tick of the poll interval. An idle pump with lines waiting drains
    /// the whole queue into its batch and returns `true`; otherwise nothing
    /// changes and it returns `false`.
    pub fn tick(&mut self, queue: &mut OutboundQueue) -> (started: bool)
        ensures
            started == (old(self)@.len() == 0 && old(queue)@.len() > 0),
            (final(queue)@, final(self)@) == tick_step(old(queue)@, old(self)@),
    {
        if self.batch.len() == 0 && !queue.is_empty() {
            self.batch = queue.take_all();
            true
        } else {
            false
        }
    }

    /// The line to write next: the first of the batch, or `None` when idle.
    pub fn next_line(&self) -> (r: Option<String>)
        ensures
            r is None <==> self@.len() == 0,
            r matches Some(l) ==> l@ == self@[0],
    {
        if self.batch.len() == 0 {
            None
        } else {
            Some(self.batch[0].clone())
        }
    }

    /// Records how the write of the line from [`SendPump::next_line`] went.
    /// The line leaves the batch; when `sent` is false it is put back at the
    /// tail of the queue, behind lines that arrived meanwhile. An idle pump
    /// ignores the call.
    pub fn record(&mut self, queue: &mut OutboundQueue, sent: bool)
        ensures
            (final(queue)@, final(self)@) == record_step(old(queue)@, old(self)@, sent),
    {
        if self.batch.len() > 0 {
            let line = self.batch.remove(0);
            assert(texts(self.batch@) =~= texts(old(self).batch@).drop_first());
            if !sent {
                queue.enqueue(line);
            }
        }
    }
}

} // verus!

//! The outbound queue: lines waiting to be written, in the order they came.
use vstd::prelude::*;

verus! {

/// The text of each line, in order.
pub open spec fn texts(v: Seq<String>) -> Seq<Seq<char>> {
    v.map_values(|l: String| l@)
}

/// Lines waiting to be sent. Insertion order is kept; there is no bound, no
/// deduplication and no priority.
pub struct OutboundQueue {
    lines: Vec<String>,
}

impl View for OutboundQueue {
    type V = Seq<Seq<char>>;

    closed spec fn view(&self) -> Seq<Seq<char>> {
        texts(self.lines@)
    }
}

impl OutboundQueue {
    /// An empty queue.
    pub fn new() -> (r: OutboundQueue)
        ensures
            r@ == Seq::<Seq<char>>::empty(),
    {
        OutboundQueue { lines: Vec::new() }
    }

    /// Appends `line` at the tail. It always succeeds.
    pub fn enqueue(&mut self, line: String)
        ensures
            final(self)@ == old(self)@.push(line@),
    {
        self.lines.push(line);
        assert(texts(self.lines@) =~= texts(old(self).lines@).push(line@));
    }

    /// The number of lines waiting.
    pub fn len(&self) -> (r: usize)
        ensures
            r == self@.len(),
    {
        self.lines.len()
    }

    /// Whether no line is waiting.
    pub fn is_empty(&self) -> (r: bool)
        ensures
            r == (self@.len() == 0),
    {
        self.lines.len() == 0
    }

    /// Takes every waiting line at once, leaving the queue empty. Taking and
    /// clearing are one step, so no line that arrives meanwhile is lost.
    pub fn take_all(&mut self) -> (r: Vec<String>)
        ensures
            texts(r@) == old(self)@,
            final(self)@ == Seq::<Seq<char>>::empty(),
    {
        let mut taken: Vec<String> = Vec::new();
        std::mem::swap(&mut taken, &mut self.lines);
        assert(texts(self.lines@) =~= Seq::<Seq<char>>::empty());
        taken
    }
}

} // verus!

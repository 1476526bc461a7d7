//! The decisions of the receive pump: forward each decoded line, and stop
//! for good at the first failure.
//!
//! The caller reads the transport through the codec, hands each outcome to
//! [`ReceivePump::handle`], and publishes what comes back. Once the pump has
//! stopped it publishes nothing more; whether to start a new one is left to
//! whoever supervises it.
use vstd::prelude::*;

verus! {

/// Why the receive pump stopped.
#[derive(Clone, Copy, Debug, PartialEq, Eq, Structural)]
pub enum StopReason {
    /// The stream ended.
    StreamClosed,
    /// Reading the transport failed.
    ReadFailed,
    /// A line was not valid UTF-8.
    InvalidText,
    /// The frontend could not be told of a line.
    DeliveryFailed,
}

/// The state of the receive pump.
#[derive(Clone, Copy, Debug, PartialEq, Eq, Structural)]
pub enum ReceiveState {
    Running,
    Stopped(StopReason),
}

/// What reading the transport, or publishing a line, came to.
#[derive(Clone, Debug)]
pub enum ReceiveEvent {
    /// A complete line was decoded.
    Line(String),
    /// The stream ended.
    Closed,
    /// Reading the transport failed.
    ReadFailed,
    /// The bytes of a line were not valid UTF-8.
    InvalidText,
    /// Publishing a line to the frontend failed.
    DeliveryFailed,
}

/// The line an event carries, as text.
pub open spec fn line_of(r: Option<String>) -> Option<Seq<char>> {
    match r {
        Some(l) => Some(l@),
        None => None,
    }
}

/// One event: a running pump publishes each line and stops at any failure;
/// a stopped pump stays as it is and publishes nothing.
pub open spec fn receive_step(state: ReceiveState, ev: ReceiveEvent) -> (ReceiveState, Option<Seq<char>>) {
    match state {
        ReceiveState::Stopped(reason) => (ReceiveState::Stopped(reason), None),
        ReceiveState::Running => match ev {
            ReceiveEvent::Line(l) => (ReceiveState::Running, Some(l@)),
            ReceiveEvent::Closed => (ReceiveState::Stopped(StopReason::StreamClosed), None),
            ReceiveEvent::ReadFailed => (ReceiveState::Stopped(StopReason::ReadFailed), None),
            ReceiveEvent::InvalidText => (ReceiveState::Stopped(StopReason::InvalidText), None),
            ReceiveEvent::DeliveryFailed => (ReceiveState::Stopped(StopReason::DeliveryFailed), None),
        },
    }
}

/// The state after `events`, one after another, and the lines published on
/// the way, in order.
pub open spec fn run_events(state: ReceiveState, events: Seq<ReceiveEvent>) -> (ReceiveState, Seq<Seq<char>>)
    decreases events.len(),
{
    if events.len() == 0 {
        (state, Seq::empty())
    } else {
        let (next, out) = receive_step(state, events[0]);
        let (last, rest) = run_events(next, events.drop_first());
        match out {
            Some(l) => (last, seq![l].add(rest)),
            None => (last, rest),
        }
    }
}

/// A stopped pump stays stopped, for the same reason, and publishes nothing
/// whatever comes after.
pub proof fn lemma_stopped_stays_silent(reason: StopReason, events: Seq<ReceiveEvent>)
    ensures
        run_events(ReceiveState::Stopped(reason), events) == (
            ReceiveState::Stopped(reason),
            Seq::<Seq<char>>::empty(),
        ),
    decreases events.len(),
{
    if events.len() > 0 {
        lemma_stopped_stays_silent(reason, events.drop_first());
    }
}

/// Any failure is fatal: after a read error, the end of the stream, invalid
/// text or a failed delivery, a running pump stops and publishes nothing
/// more, whatever comes after.
pub proof fn lemma_failure_is_fatal(failure: ReceiveEvent, later: Seq<ReceiveEvent>)
    requires
        !(failure is Line),
    ensures
        run_events(ReceiveState::Running, seq![failure].add(later)).0 is Stopped,
        run_events(ReceiveState::Running, seq![failure].add(later)).1 == Seq::<Seq<char>>::empty(),
{
    let events = seq![failure].add(later);
    assert(events.drop_first() =~= later);
    let (next, out) = receive_step(ReceiveState::Running, failure);
    let reason = match next {
        ReceiveState::Stopped(r) => r,
        ReceiveState::Running => StopReason::StreamClosed,
    };
    lemma_stopped_stays_silent(reason, later);
}

/// The receive pump.
pub struct ReceivePump {
    state: ReceiveState,
}

impl ReceivePump {
    /// A running pump.
    pub fn new() -> (r: ReceivePump)
        ensures
            r.state() == ReceiveState::Running,
    {
        ReceivePump { state: ReceiveState::Running }
    }

    /// The current state.
    pub closed spec fn state(&self) -> ReceiveState {
        self.state
    }

    /// The current state.
    pub fn current_state(&self) -> (r: ReceiveState)
        ensures
            r == self.state(),
    {
        self.state
    }

    /// Whether the pump still forwards lines.
    pub fn is_running(&self) -> (r: bool)
        ensures
            r == (self.state() == ReceiveState::Running),
    {
        match self.state {
            ReceiveState::Running => true,
            ReceiveState::Stopped(_) => false,
        }
    }

    /// Takes one event. Returns the line to publish to the frontend, if any:
    /// a running pump publishes each decoded line and stops at the first
    /// failure; a stopped pump publishes nothing.
    pub fn handle(&mut self, ev: ReceiveEvent) -> (r: Option<String>)
        ensures
            (final(self).state(), line_of(r)) == receive_step(old(self).state(), ev),
    {
        match self.state {
            ReceiveState::Stopped(_) => None,
            ReceiveState::Running => match ev {
                ReceiveEvent::Line(l) => Some(l),
                ReceiveEvent::Closed => {
                    self.state = ReceiveState::Stopped(StopReason::StreamClosed);
                    None
                },
                ReceiveEvent::ReadFailed => {
                    self.state = ReceiveState::Stopped(StopReason::ReadFailed);
                    None
                },
                ReceiveEvent::InvalidText => {
                    self.state = ReceiveState::Stopped(StopReason::InvalidText);
                    None
                },
                ReceiveEvent::DeliveryFailed => {
                    self.state = ReceiveState::Stopped(StopReason::DeliveryFailed);
                    None
                },
            },
        }
    }
}

} // verus!

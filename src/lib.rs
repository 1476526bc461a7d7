//! Line framing, outbound queueing with retry, and inbound forwarding for a
//! line-oriented device attached over a serial byte stream.
//!
//! The transport itself, the timers and the frontend live outside this
//! library: it holds the decisions, and its callers perform the I/O.
use vstd::prelude::*;

mod buffer;

pub mod codec;
pub mod queue;
pub mod receive_pump;
pub mod send_pump;

pub use buffer::buffer_bytes;
pub use codec::{DecodeError, LineCodec};
pub use queue::OutboundQueue;
pub use receive_pump::{ReceiveEvent, ReceivePump, ReceiveState, StopReason};
pub use send_pump::SendPump;

verus! {

/// The fixed baud rate of the serial line.
pub const BAUD_RATE: u32 = 9600;

} // verus!

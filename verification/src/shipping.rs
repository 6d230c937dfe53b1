//! Log-shipping loop.
//!
//! The reconnect-and-resend state machine that forwards buffered log bytes
//! to the remote log sink.  It mirrors the delivery loop, but its payload
//! source is the [`crate::logbuf::LogBuffer`] rather than a single held
//! record, and there is nothing to retain across a failure: a chunk
//! consumed from the buffer before a write failure is simply lost.  Log
//! delivery is best-effort by design.
//!
//! As in the delivery loop, the socket, the timer and the blocking read of
//! the buffer live with the task runtime outside this crate, which performs
//! each requested action and feeds the outcome back in.

use vstd::prelude::*;

verus! {

/// Outcome of the shipping loop's last action, fed back into the machine.
#[derive(Clone, Copy, PartialEq, Eq, Debug)]
pub enum ShippingEvent {
    /// The connection to the log sink is established.
    ConnectSucceeded,
    /// The connection attempt failed.
    ConnectFailed,
    /// The chunk in flight was written in full.
    WriteSucceeded,
    /// Writing the chunk in flight failed; the chunk is lost.
    WriteFailed,
}

/// What the surrounding loop must do next.
#[derive(Clone, Copy, PartialEq, Eq, Debug)]
pub enum ShippingAction {
    /// Close any partial socket state, wait one backoff interval, then
    /// attempt the connection.
    BackoffThenConnect,
    /// Block until the log buffer holds at least one byte, read the next
    /// chunk, and write it out.
    ForwardChunk,
}

/// Shipping loop state: only whether the connection stands.
#[derive(Clone, Copy, PartialEq, Eq, Debug)]
pub struct ShippingLoop {
    /// Whether the connection to the log sink is currently established.
    pub connected: bool,
}

/// Which events can occur in which states.
pub open spec fn shipping_event_enabled(s: ShippingLoop, e: ShippingEvent) -> bool {
    match e {
        ShippingEvent::ConnectSucceeded => !s.connected,
        ShippingEvent::ConnectFailed => !s.connected,
        ShippingEvent::WriteSucceeded => s.connected,
        ShippingEvent::WriteFailed => s.connected,
    }
}

/// State after `e`: any failure disconnects; nothing is carried over.
pub open spec fn shipping_next(s: ShippingLoop, e: ShippingEvent) -> ShippingLoop {
    match e {
        ShippingEvent::ConnectSucceeded => ShippingLoop { connected: true },
        ShippingEvent::ConnectFailed => ShippingLoop { connected: false },
        ShippingEvent::WriteSucceeded => ShippingLoop { connected: true },
        ShippingEvent::WriteFailed => ShippingLoop { connected: false },
    }
}

/// Action demanded after `e`: forward the next chunk while the connection
/// stands, back off and reconnect after any failure.
pub open spec fn shipping_action(s: ShippingLoop, e: ShippingEvent) -> ShippingAction {
    match e {
        ShippingEvent::ConnectSucceeded => ShippingAction::ForwardChunk,
        ShippingEvent::ConnectFailed => ShippingAction::BackoffThenConnect,
        ShippingEvent::WriteSucceeded => ShippingAction::ForwardChunk,
        ShippingEvent::WriteFailed => ShippingAction::BackoffThenConnect,
    }
}

impl ShippingLoop {
    /// The loop as it starts: disconnected.
    pub fn new() -> (s: ShippingLoop)
        ensures
            s == (ShippingLoop { connected: false }),
    {
        ShippingLoop { connected: false }
    }

    /// Feeds one event into the machine; the new state and the returned
    /// action are exactly those of [`shipping_next`] and
    /// [`shipping_action`].
    pub fn step(&mut self, event: ShippingEvent) -> (a: ShippingAction)
        requires
            shipping_event_enabled(*old(self), event),
        ensures
            *final(self) == shipping_next(*old(self), event),
            a == shipping_action(*old(self), event),
    {
        match event {
            ShippingEvent::ConnectSucceeded => {
                self.connected = true;
                ShippingAction::ForwardChunk
            },
            ShippingEvent::ConnectFailed => {
                self.connected = false;
                ShippingAction::BackoffThenConnect
            },
            ShippingEvent::WriteSucceeded => ShippingAction::ForwardChunk,
            ShippingEvent::WriteFailed => {
                self.connected = false;
                ShippingAction::BackoffThenConnect
            },
        }
    }
}

} // verus!

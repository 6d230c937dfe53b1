//! Delivery loop.
//!
//! The reconnect-and-resend state machine that ships the most recent tag
//! identity to the remote collector.  The loop that owns the socket lives
//! with the task runtime outside this crate: it performs the action this
//! machine asks for — connect, back off, wait on the latest-value signal,
//! or transmit the held record's identity bytes — and feeds the outcome
//! back in as the next event.
//!
//! On connect failure the machine backs off for one fixed interval and
//! retries, without bound, for the life of the process.  On transmit
//! failure it tears the connection down but *retains* the held record, so
//! the same record is transmitted again on the next successful connection:
//! delivery of the record in flight is at-least-once, and only a record
//! published while no consumer waits is ever coalesced away.

use crate::tag::AnimalTag;
use vstd::prelude::*;

verus! {

/// Outcome of the delivery loop's last action, fed back into the machine.
#[derive(Clone, Copy, PartialEq, Eq, Debug)]
pub enum DeliveryEvent {
    /// The outbound connection is established.
    ConnectSucceeded,
    /// The connection attempt failed.
    ConnectFailed,
    /// The latest-value signal handed over a record.
    TagReceived(AnimalTag),
    /// The held record's identity bytes were written in full.
    WriteSucceeded,
    /// Writing the held record's identity bytes failed.
    WriteFailed,
}

/// What the surrounding loop must do next.
#[derive(Clone, Copy, PartialEq, Eq, Debug)]
pub enum DeliveryAction {
    /// Attempt the outbound connection now.
    Connect,
    /// Close any partial socket state, wait one backoff interval, then
    /// attempt the connection.
    BackoffThenConnect,
    /// Block on the latest-value signal for the next record.
    AwaitTag,
    /// Transmit this record's identity bytes over the connection.
    Transmit(AnimalTag),
}

/// Delivery loop state: whether the connection stands, and the record in
/// flight, if any.
#[derive(Clone, Copy, PartialEq, Eq, Debug)]
pub struct DeliveryLoop {
    /// Whether the outbound connection is currently established.
    pub connected: bool,
    /// The record whose delivery is owed; retained across failures.
    pub held: Option<AnimalTag>,
}

/// Which events can occur in which states: connection outcomes while
/// disconnected, a record only while connected and not holding one, and
/// write outcomes only while connected and holding the record written.
pub open spec fn event_enabled(s: DeliveryLoop, e: DeliveryEvent) -> bool {
    match e {
        DeliveryEvent::ConnectSucceeded => !s.connected,
        DeliveryEvent::ConnectFailed => !s.connected,
        DeliveryEvent::TagReceived(_) => s.connected && s.held is None,
        DeliveryEvent::WriteSucceeded => s.connected && s.held is Some,
        DeliveryEvent::WriteFailed => s.connected && s.held is Some,
    }
}

/// State after `e`: a write failure disconnects but keeps the held record;
/// only a successful write clears it.
pub open spec fn delivery_next(s: DeliveryLoop, e: DeliveryEvent) -> DeliveryLoop {
    match e {
        DeliveryEvent::ConnectSucceeded => DeliveryLoop { connected: true, ..s },
        DeliveryEvent::ConnectFailed => s,
        DeliveryEvent::TagReceived(t) => DeliveryLoop { connected: true, held: Some(t) },
        DeliveryEvent::WriteSucceeded => DeliveryLoop { connected: true, held: None },
        DeliveryEvent::WriteFailed => DeliveryLoop { connected: false, ..s },
    }
}

/// Action demanded after `e`: a fresh connection transmits the held record
/// at once or waits for one; a failed connect backs off before retrying; a
/// failed write reconnects immediately.
pub open spec fn delivery_action(s: DeliveryLoop, e: DeliveryEvent) -> DeliveryAction {
    match e {
        DeliveryEvent::ConnectSucceeded => match s.held {
            Some(t) => DeliveryAction::Transmit(t),
            None => DeliveryAction::AwaitTag,
        },
        DeliveryEvent::ConnectFailed => DeliveryAction::BackoffThenConnect,
        DeliveryEvent::TagReceived(t) => DeliveryAction::Transmit(t),
        DeliveryEvent::WriteSucceeded => DeliveryAction::AwaitTag,
        DeliveryEvent::WriteFailed => DeliveryAction::Connect,
    }
}

impl DeliveryLoop {
    /// The loop as it starts: disconnected, owing nothing.
    pub fn new() -> (s: DeliveryLoop)
        ensures
            s == (DeliveryLoop { connected: false, held: None }),
    {
        DeliveryLoop { connected: false, held: None }
    }

    /// Feeds one event into the machine; the new state and the returned
    /// action are exactly those of [`delivery_next`] and
    /// [`delivery_action`].
    pub fn step(&mut self, event: DeliveryEvent) -> (a: DeliveryAction)
        requires
            event_enabled(*old(self), event),
        ensures
            *final(self) == delivery_next(*old(self), event),
            a == delivery_action(*old(self), event),
    {
        match event {
            DeliveryEvent::ConnectSucceeded => {
                self.connected = true;
                match self.held {
                    Some(t) => DeliveryAction::Transmit(t),
                    None => DeliveryAction::AwaitTag,
                }
            },
            DeliveryEvent::ConnectFailed => DeliveryAction::BackoffThenConnect,
            DeliveryEvent::TagReceived(t) => {
                self.held = Some(t);
                DeliveryAction::Transmit(t)
            },
            DeliveryEvent::WriteSucceeded => {
                self.held = None;
                DeliveryAction::AwaitTag
            },
            DeliveryEvent::WriteFailed => {
                self.connected = false;
                DeliveryAction::Connect
            },
        }
    }
}

/// Runs a sequence of events through the machine, collecting the state it
/// ends in and the action demanded after each event.
pub open spec fn delivery_run(s: DeliveryLoop, events: Seq<DeliveryEvent>) -> (
    DeliveryLoop,
    Seq<DeliveryAction>,
)
    decreases events.len(),
{
    if events.len() == 0 {
        (s, Seq::empty())
    } else {
        let rest = delivery_run(delivery_next(s, events[0]), events.skip(1));
        (rest.0, seq![delivery_action(s, events[0])] + rest.1)
    }
}

/// Every event of the sequence is enabled in the state it meets.
pub open spec fn events_enabled(s: DeliveryLoop, events: Seq<DeliveryEvent>) -> bool
    decreases events.len(),
{
    events.len() == 0 || (event_enabled(s, events[0]) && events_enabled(
        delivery_next(s, events[0]),
        events.skip(1),
    ))
}

/// A connect that fails once and then succeeds, followed by one record and
/// a successful write, delivers that record exactly once, with exactly one
/// backoff — after the failed connect — and leaves nothing owed.
pub proof fn lemma_one_failure_one_backoff_one_delivery(t: AnimalTag)
    ensures
        ({
            let s0 = DeliveryLoop { connected: false, held: None };
            let events = seq![
                DeliveryEvent::ConnectFailed,
                DeliveryEvent::ConnectSucceeded,
                DeliveryEvent::TagReceived(t),
                DeliveryEvent::WriteSucceeded,
            ];
            let (end, actions) = delivery_run(s0, events);
            &&& events_enabled(s0, events)
            &&& actions =~= seq![
                DeliveryAction::BackoffThenConnect,
                DeliveryAction::AwaitTag,
                DeliveryAction::Transmit(t),
                DeliveryAction::AwaitTag,
            ]
            &&& end == (DeliveryLoop { connected: true, held: None })
        }),
{
    let s0 = DeliveryLoop { connected: false, held: None };
    let events = seq![
        DeliveryEvent::ConnectFailed,
        DeliveryEvent::ConnectSucceeded,
        DeliveryEvent::TagReceived(t),
        DeliveryEvent::WriteSucceeded,
    ];
    reveal_with_fuel(delivery_run, 5);
    reveal_with_fuel(events_enabled, 5);
    assert(events.skip(1) =~= seq![
        DeliveryEvent::ConnectSucceeded,
        DeliveryEvent::TagReceived(t),
        DeliveryEvent::WriteSucceeded,
    ]);
    assert(events.skip(1).skip(1) =~= seq![
        DeliveryEvent::TagReceived(t),
        DeliveryEvent::WriteSucceeded,
    ]);
    assert(events.skip(1).skip(1).skip(1) =~= seq![DeliveryEvent::WriteSucceeded]);
    assert(events.skip(1).skip(1).skip(1).skip(1) =~= Seq::<DeliveryEvent>::empty());
}

/// The record in flight is never silently dropped: the held record
/// changes only when the signal hands over a record or when its own write
/// succeeds — no connection or write failure touches it.
pub proof fn lemma_record_cleared_only_by_success(s: DeliveryLoop, e: DeliveryEvent)
    ensures
        delivery_next(s, e).held != s.held ==> (e is TagReceived || e is WriteSucceeded),
        (e is ConnectSucceeded || e is ConnectFailed || e is WriteFailed) ==> delivery_next(
            s,
            e,
        ).held == s.held,
{
}

/// A record in flight survives a write failure: the machine disconnects
/// but keeps holding the record, and the next successful connection
/// transmits exactly the same record again — possibly duplicating bytes the
/// remote already saw, never dropping the record.
pub proof fn lemma_held_record_retried(s: DeliveryLoop, t: AnimalTag)
    requires
        s.connected,
        s.held == Some(t),
    ensures
        ({
            let down = delivery_next(s, DeliveryEvent::WriteFailed);
            &&& down.held == Some(t)
            &&& !down.connected
            &&& delivery_action(down, DeliveryEvent::ConnectSucceeded) == DeliveryAction::Transmit(
                t,
            )
            &&& delivery_next(down, DeliveryEvent::ConnectSucceeded).held == Some(t)
        }),
{
}

} // verus!

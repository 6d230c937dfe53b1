//! Latest-value signal.
//!
//! A one-slot mailbox between one producer and one consumer.  Publishing
//! never blocks and always succeeds: a new value simply replaces any value
//! that the consumer has not yet taken, coalescing bursts so that only the
//! most recent value is ever observed.  The consumer side of the firmware
//! blocks until a value is present; that suspension lives with the task
//! runtime outside this crate, which calls [`LatestSignal::take`] once the
//! slot is occupied (or polls it).  The signal is designed for exactly one
//! producer and one consumer task; concurrent multi-consumer use is
//! unsupported.

use vstd::prelude::*;

verus! {

/// What publishing `value` leaves in a slot: the value, whatever was there.
pub open spec fn spec_publish<T>(slot: Option<T>, value: T) -> Option<T> {
    Some(value)
}

/// What taking leaves in a slot and what it yields: an empty slot, and
/// whatever the slot held.
pub open spec fn spec_take<T>(slot: Option<T>) -> (Option<T>, Option<T>) {
    (None, slot)
}

/// A one-slot "latest value wins" mailbox.
pub struct LatestSignal<T> {
    slot: Option<T>,
}

impl<T> View for LatestSignal<T> {
    type V = Option<T>;

    closed spec fn view(&self) -> Option<T> {
        self.slot
    }
}

impl<T> LatestSignal<T> {
    /// An empty signal.
    pub fn new() -> (s: LatestSignal<T>)
        ensures
            s@ == Option::<T>::None,
    {
        LatestSignal { slot: None }
    }

    /// Publishes `value`: never blocks, always succeeds, and overwrites any
    /// value that has not been taken yet.
    pub fn publish(&mut self, value: T)
        ensures
            final(self)@ == spec_publish(old(self)@, value),
    {
        self.slot = Some(value);
    }

    /// Takes the pending value, leaving the slot empty; `None` when no
    /// value is pending.  A consumer that must block until a value arrives
    /// parks itself between calls.
    pub fn take(&mut self) -> (r: Option<T>)
        ensures
            final(self)@ == spec_take(old(self)@).0,
            r == spec_take(old(self)@).1,
    {
        self.slot.take()
    }

    /// Whether a value is pending.
    pub fn is_pending(&self) -> (b: bool)
        ensures
            b == (self@ is Some),
    {
        self.slot.is_some()
    }
}

/// Publishing twice before the consumer runs results in exactly one take
/// that carries the second value: the first value is overwritten and never
/// observed, and a second take finds the slot empty.
pub proof fn lemma_publish_coalesces<T>(s0: Option<T>, a: T, b: T)
    ensures
        ({
            let s1 = spec_publish(s0, a);
            let s2 = spec_publish(s1, b);
            let (s3, first) = spec_take(s2);
            let (s4, second) = spec_take(s3);
            first == Some(b) && second == Option::<T>::None && s4 == Option::<T>::None
        }),
{
}

} // verus!

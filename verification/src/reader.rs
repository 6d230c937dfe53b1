//! Reader loop.
//!
//! The reader task repeatedly captures an exactly-30-byte frame from the
//! serial line, decodes it, publishes the record to the latest-value
//! signal, and paces itself for one fixed interval before reading again.
//! The blocking read, the pacing delay and the fatal handling of a serial
//! error belong to the task runtime outside this crate; the step below is
//! everything the loop does between them.

use crate::signal::spec_publish;
use crate::signal::LatestSignal;
use crate::tag::is_decode_of;
use crate::tag::AnimalTag;
use vstd::prelude::*;

verus! {

/// Decodes one captured frame and publishes the record to the signal,
/// overwriting any record the sender has not picked up yet.  Returns the
/// decoded record so the caller can log its identity.
pub fn process_frame(signal: &mut LatestSignal<AnimalTag>, frame: &[u8; 30]) -> (t: AnimalTag)
    ensures
        is_decode_of(t, frame@),
        final(signal)@ == spec_publish(old(signal)@, t),
{
    let t = AnimalTag::from_frame(frame);
    signal.publish(t);
    t
}

} // verus!

//! Core logic of a battery-powered field device that reads proximity-card
//! identifiers from a serial line and relays them, together with diagnostic
//! log lines, to a remote collector over an unreliable network link.
//!
//! The crate verifies the four pieces of genuine engineering in that device:
//!
//! * [`arena`] — a fixed-size bump arena that serves as the process-wide
//!   dynamic memory source;
//! * [`tag`] — a total decoder from a 30-byte wire capture to a structured
//!   tag record, with its two identity-string renderings;
//! * [`signal`] — a one-slot "latest value wins" mailbox between the frame
//!   producer and the network sender;
//! * [`delivery`] and [`shipping`] — the reconnect-and-resend state machines
//!   for tag delivery and for log shipping, with [`logbuf`] as the bounded
//!   byte buffer that feeds the latter.
//!
//! Around these, [`reader`] is the decode-and-publish step of the frame
//! reader, [`http`] renders the page of the inbound request responder, and
//! [`text`] holds the shared rendering helpers.  The radio, the TCP stack,
//! the serial driver and the task executor are external collaborators: the
//! loops that talk to them live outside this crate and feed events into
//! the state machines defined here.

pub mod arena;
pub mod delivery;
pub mod http;
pub mod logbuf;
pub mod reader;
pub mod shipping;
pub mod signal;
pub mod tag;
pub mod text;

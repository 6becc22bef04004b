//! A message-framed channel over a bidirectional console device.
//!
//! The crate holds the decisions of the channel: how the outcome of a
//! readiness wait is judged, when a message read in chunks is complete, what
//! is kept in the one-shot cache, and in which order the start-up probe
//! proceeds. It performs no system call itself. The caller carries out each
//! requested action on the device and hands the outcome back as a plain
//! value.

pub mod bootstrap;
pub mod bus;
pub mod error;
pub mod reading;

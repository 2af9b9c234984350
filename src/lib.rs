//! Event layer of a terminal interface: keyboard input and periodic ticks
//! merged into one ordered stream, and the host that classifies that stream
//! into control signals for a single-threaded interface loop.
use vstd::prelude::*;

pub mod keys;
pub mod interval;
pub mod config;
pub mod channel;
pub mod host;
pub mod producers;

verus! {

} // verus!

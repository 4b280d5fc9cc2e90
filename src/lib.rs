//! A verified driver for a bean-reward task API: the request protocol
//! (payloads, envelope unwrapping, task decoding) and the per-account task
//! runner, written as a state machine whose actions a host performs.

pub mod json;
pub mod protocol;
pub mod task;
pub mod runner;

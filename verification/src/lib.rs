//! Job-dispatch and streaming-relay core for the rustybot service.
//!
//! The library models the hand-off of completion jobs from a submission
//! endpoint to a polling dispatcher through a durable FIFO queue, and the
//! relay of streamed completion fragments to a publish/subscribe broker,
//! correlated per job by a generated identity.

pub mod auth;
pub mod codec;
pub mod config;
pub mod dispatch;
pub mod execution;
pub mod job;
pub mod middleware;
pub mod models;
pub mod numerals;
pub mod sql;
pub mod submit;
pub mod text;
pub mod version;

use vstd::prelude::*;

verus! {

} // verus!

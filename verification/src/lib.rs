//! Audio redirection library: device inventory and a verified
//! source-to-sink redirection pipeline.
//!
//! The library models audio endpoints as plain snapshots, negotiates a
//! common stream configuration between a source and a sink, and drives a
//! redirection session as an explicit state machine. All host-subsystem
//! queries and live stream I/O live outside the library; callers hand in
//! snapshots and events and perform the actions the session asks for.

pub mod catalog;
pub mod cli;
pub mod config;
pub mod devices;
pub mod errors;
pub mod frames;
pub mod negotiate;
pub mod report;
pub mod session;
pub mod source;
pub mod text;

use vstd::prelude::*;

verus! {

/// Marker consumed by the process shell: the run failed and the process
/// must exit with a non-zero code.
#[derive(Debug)]
pub struct Failure;

impl From<()> for Failure {
    fn from(unit: ()) -> (r: Self) {
        Failure
    }
}

} // verus!

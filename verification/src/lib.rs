//! Telemetry acquisition for racing simulators that publish their state in
//! shared memory.
//!
//! A simulator process (the writer) periodically publishes a raw, fixed-layout
//! frame into a named shared-memory region; this crate is the passive reader
//! side: it decides when a fresh frame is available, copies it out without
//! observing a torn (partially written) frame, checks that the producer's
//! layout version is one we understand, and converts the raw bytes into typed
//! snapshots.
//!
//! Everything that touches the operating system (mapping the region, sleeping,
//! waiting on a wake event) lives outside this crate; the logic here works on
//! plain values handed in by that outer layer, and its contracts state exactly
//! what each step of the protocol decides.

use vstd::prelude::*;

pub mod assetto_corsa;
pub mod client;
pub mod codepage;
pub mod iracing;
pub mod protocol;
pub mod rfactor_2;
pub mod schema;
pub mod version;

verus! {

/// Why an acquisition step failed, or why a frame was not produced.
///
/// `NotFound` and `Torn` are transient: the caller retries them and never
/// surfaces them as failures.  The version errors are fatal for a connection
/// attempt, since retrying cannot fix an incompatible producer build.
/// `OsResource` stands for a mapping/open failure other than not-found.
#[derive(Clone, Copy, Debug, PartialEq, Eq, Structural)]
pub enum TelemetryError {
    /// The named region does not exist yet (simulator not running).
    NotFound,
    /// A copy overlapped a concurrent write and was discarded.
    Torn,
    /// The producer reported a layout version outside the supported range.
    IncompatibleVersion { major: u16, minor: u16 },
    /// The version string did not parse as dot-separated numbers.
    MalformedVersion,
    /// The version string parsed but held no major component.
    MissingMajorVersion,
    /// The version string parsed but held no minor component.
    MissingMinorVersion,
    /// An unrecoverable operating-system failure (for example permission denied).
    OsResource,
}

} // verus!

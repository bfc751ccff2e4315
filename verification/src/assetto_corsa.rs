//! The simulator family that publishes three independent regions (static,
//! physics, graphics), each carrying a monotonic packet id, plus a status
//! word in the graphics region that tells whether the producer is live.
//!
//! Connection goes: wait until the status word reports the producer on, check
//! the reported layout version against the capability's supported range, then
//! poll the packet ids; a change in either mutable section yields a new
//! snapshot.

use vstd::prelude::*;

use std::sync::Arc;

use crate::TelemetryError;
use crate::version::{VersionBounds, spec_check_version, check_version_text};

verus! {

/// The leading fields of the graphics region: enough to detect changes and
/// producer liveness without decoding the rest.
#[derive(Clone, Copy, Debug, PartialEq, Eq, Structural)]
pub struct PageFileGraphicsTop {
    pub packet_id: i32,
    pub status: i32,
}

/// The leading field of the static region: the layout version the producer
/// reports, as fixed-width NUL-padded UTF-16 code units.
#[derive(Clone, Copy, Debug)]
pub struct PageFileStaticTop {
    pub sm_version: [u16; 15],
}

/// The producer's status word, decoded.
#[derive(Clone, Copy, Debug, PartialEq, Eq, Structural)]
pub enum Status {
    Off,
    Replay,
    Live,
    Pause,
}

impl Status {
    /// Decodes the raw status word; values this crate does not know read as
    /// `Off`, so an unknown producer state counts as not running.
    pub fn from_raw(raw: i32) -> (s: Status)
        ensures
            s == Status::spec_from_raw(raw),
    {
        if raw == 1 {
            Status::Replay
        } else if raw == 2 {
            Status::Live
        } else if raw == 3 {
            Status::Pause
        } else {
            Status::Off
        }
    }

    pub open spec fn spec_from_raw(raw: i32) -> Status {
        if raw == 1 {
            Status::Replay
        } else if raw == 2 {
            Status::Live
        } else if raw == 3 {
            Status::Pause
        } else {
            Status::Off
        }
    }
}

/// Whether the graphics region reports the producer as running: any decoded
/// status other than `Off`.
pub open spec fn spec_is_connected(top: PageFileGraphicsTop) -> bool {
    Status::spec_from_raw(top.status) != Status::Off
}

/// The connect-time and per-poll liveness gate.
pub fn is_connected(top: &PageFileGraphicsTop) -> (r: bool)
    ensures
        r == spec_is_connected(*top),
{
    let status = Status::from_raw(top.status);
    match status {
        Status::Off => false,
        _ => true,
    }
}

/// A typed section that carries the producer's monotonic packet id.
pub trait WithPacketId {
    spec fn spec_packet_id(&self) -> i32;

    fn packet_id(&self) -> (r: i32)
        ensures
            r == self.spec_packet_id(),
    ;
}

/// One supported layout revision: the version range it accepts and the typed
/// sections it decodes to.
pub trait AcApiVersion {
    type DataStatic;

    type DataPhysics: WithPacketId;

    type DataGraphics: WithPacketId;

    spec fn spec_bounds() -> VersionBounds;

    fn bounds() -> (b: VersionBounds)
        ensures
            b == Self::spec_bounds(),
    ;
}

/// The typed static section of the baseline layout revision: written once
/// by the producer at session start.
#[derive(Clone, Copy, Debug)]
pub struct StaticData {
    pub sm_version: [u16; 15],
    pub num_cars: i32,
    pub max_rpm: i32,
}

/// The typed physics section of the baseline layout revision.
#[derive(Clone, Copy, Debug, PartialEq, Eq, Structural)]
pub struct PhysicsData {
    pub packet_id: i32,
    pub gear: i32,
    pub rpm: i32,
}

/// The typed graphics section of the baseline layout revision.
#[derive(Clone, Copy, Debug, PartialEq, Eq, Structural)]
pub struct GraphicsData {
    pub packet_id: i32,
    pub status: i32,
    pub completed_laps: i32,
}

impl WithPacketId for PhysicsData {
    open spec fn spec_packet_id(&self) -> i32 {
        self.packet_id
    }

    fn packet_id(&self) -> (r: i32) {
        self.packet_id
    }
}

impl WithPacketId for GraphicsData {
    open spec fn spec_packet_id(&self) -> i32 {
        self.packet_id
    }

    fn packet_id(&self) -> (r: i32) {
        self.packet_id
    }
}

/// The baseline capability: layout revisions `1.0` through `1.9`.
#[derive(Clone, Copy, Debug)]
pub struct AcApiV1;

impl AcApiVersion for AcApiV1 {
    type DataStatic = StaticData;

    type DataPhysics = PhysicsData;

    type DataGraphics = GraphicsData;

    open spec fn spec_bounds() -> VersionBounds {
        VersionBounds { major_min: 1, minor_min: 0, major_max: 1, minor_max: 9 }
    }

    fn bounds() -> (b: VersionBounds) {
        VersionBounds { major_min: 1, minor_min: 0, major_max: 1, minor_max: 9 }
    }
}

/// One fully verified frame: the immutable static section plus the physics
/// and graphics sections that were current when the frame was confirmed.
/// Cloning shares the sections; a snapshot is never mutated once built.
pub struct SimState<Version: AcApiVersion> {
    pub static_data: Arc<Version::DataStatic>,
    pub physics: Arc<Version::DataPhysics>,
    pub graphics: Arc<Version::DataGraphics>,
}

/// Checks the version text in the static region against the range the
/// capability supports.  Succeeds exactly when the text parses as
/// `major.minor[...]` and the pair lies inside the supported range; an
/// in-range producer is never rejected and an out-of-range one never accepted.
pub fn check_version<Version: AcApiVersion>(data: &PageFileStaticTop) -> (r: Result<
    (),
    TelemetryError,
>)
    ensures
        r == spec_check_version(data.sm_version@, Version::spec_bounds()),
{
    let bounds = Version::bounds();
    check_version_text(&data.sm_version, &bounds)
}

/// What one poll of the two mutable sections decides.
#[derive(Clone, Copy, Debug, PartialEq, Eq, Structural)]
pub enum PollOutcome {
    /// The producer is no longer live: the snapshot stream ends.
    Disconnected,
    /// Neither section's packet id moved: wait for the next poll.
    NoChange,
    /// At least one section published: re-read the changed sections and emit.
    NewFrame { physics_changed: bool, graphics_changed: bool },
}

/// What the poll loop decides from the liveness gate and the packet ids
/// observed now against those of the last emitted frame.
pub open spec fn spec_poll_outcome(
    connected: bool,
    physics_id: i32,
    last_physics_id: i32,
    graphics_id: i32,
    last_graphics_id: i32,
) -> PollOutcome {
    if !connected {
        PollOutcome::Disconnected
    } else if physics_id != last_physics_id || graphics_id != last_graphics_id {
        PollOutcome::NewFrame {
            physics_changed: physics_id != last_physics_id,
            graphics_changed: graphics_id != last_graphics_id,
        }
    } else {
        PollOutcome::NoChange
    }
}

/// One step of the snapshot poll loop, on the values the loop observed: the
/// liveness gate and the current packet id of each mutable section.  The
/// caller re-reads exactly the sections reported changed, then emits.
pub fn poll_outcome(
    connected: bool,
    physics_id: i32,
    last_physics_id: i32,
    graphics_id: i32,
    last_graphics_id: i32,
) -> (r: PollOutcome)
    ensures
        r == spec_poll_outcome(connected, physics_id, last_physics_id, graphics_id, last_graphics_id),
{
    if !connected {
        return PollOutcome::Disconnected;
    }
    let physics_changed = physics_id != last_physics_id;
    let graphics_changed = graphics_id != last_graphics_id;
    if physics_changed || graphics_changed {
        PollOutcome::NewFrame { physics_changed, graphics_changed }
    } else {
        PollOutcome::NoChange
    }
}

} // verus!

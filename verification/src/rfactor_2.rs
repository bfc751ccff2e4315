//! The simulator family that guards every region with a begin/end counter
//! pair: the writer increments `version_update_begin` right before rewriting
//! a buffer and `version_update_end` right after, so a reader sees a
//! consistent frame only when the two agree (see [`crate::protocol`] for the
//! proof that this check admits no torn copy).
//!
//! The typed sections carrying only a packet id are decoded here in full; the
//! float-bearing telemetry and scoring payloads are decoded by the unverified
//! layer on top of the header checks, the vehicle-count clamp and the text
//! decoding this module provides.

use vstd::prelude::*;

use crate::TelemetryError;

verus! {

/// The fixed capacity of the per-vehicle arrays in the raw layouts.
pub const MAX_MAPPED_VEHICLES: usize = 128;

/// The begin/end counter pair heading every shared page.
#[derive(Clone, Copy, Debug, PartialEq, Eq, Structural)]
pub struct PageHeader {
    /// Incremented right before the buffer is written to.
    pub version_update_begin: u32,
    /// Incremented after the buffer write is done.
    pub version_update_end: u32,
}

/// The change token of one verified frame.
#[derive(Clone, Copy, Debug, Hash, Ord, PartialOrd, Eq, PartialEq, Structural)]
pub struct PacketId(pub u32);

/// What reading a page header yields: its packet id when the counter pair
/// agrees, `Torn` when the page was caught mid-write.
pub open spec fn spec_packet_id(header: PageHeader) -> Result<PacketId, TelemetryError> {
    if header.version_update_begin == header.version_update_end {
        Ok(PacketId(header.version_update_end))
    } else {
        Err(TelemetryError::Torn)
    }
}

impl PacketId {
    /// Accepts a page header exactly when its begin/end counters agree; a
    /// disagreement means the writer was caught mid-publish and the copy must
    /// be discarded.
    pub fn try_from(header: PageHeader) -> (r: Result<PacketId, TelemetryError>)
        ensures
            r == spec_packet_id(header),
    {
        if header.version_update_begin != header.version_update_end {
            Err(TelemetryError::Torn)
        } else {
            Ok(PacketId(header.version_update_end))
        }
    }
}

/// The raw rules page: only its header and update hint are read.
#[derive(Clone, Copy, Debug, PartialEq, Eq, Structural)]
pub struct PageRules {
    pub header: PageHeader,
    /// How many bytes of the structure were written during the last update;
    /// 0 means unknown (the whole buffer counts as updated).
    pub bytes_updated_hint: i32,
}

/// The raw multi-session rules page.
#[derive(Clone, Copy, Debug, PartialEq, Eq, Structural)]
pub struct PageMultiRules {
    pub header: PageHeader,
    /// How many bytes of the structure were written during the last update;
    /// 0 means unknown (the whole buffer counts as updated).
    pub bytes_updated_hint: i32,
}

/// The raw pit information page.
#[derive(Clone, Copy, Debug, PartialEq, Eq, Structural)]
pub struct PagePitInfo {
    pub header: PageHeader,
}

/// The raw weather page.
#[derive(Clone, Copy, Debug, PartialEq, Eq, Structural)]
pub struct PageWeather {
    pub header: PageHeader,
}

/// The raw extended-state page.
#[derive(Clone, Copy, Debug, PartialEq, Eq, Structural)]
pub struct PageExtended {
    pub header: PageHeader,
}

/// The typed rules section: the verified packet id of the page it came from.
#[derive(Clone, Copy, Debug, PartialEq, Eq, Structural)]
pub struct Rules {
    pub packet_id: PacketId,
}

impl Rules {
    /// Decodes the rules page: succeeds with the page's packet id exactly
    /// when the page was not caught mid-write.
    pub fn try_from(value: &PageRules) -> (r: Result<Rules, TelemetryError>)
        ensures
            r == match spec_packet_id(value.header) {
                Ok(id) => Ok::<Rules, TelemetryError>(Rules { packet_id: id }),
                Err(e) => Err::<Rules, TelemetryError>(e),
            },
    {
        match PacketId::try_from(value.header) {
            Ok(packet_id) => Ok(Rules { packet_id }),
            Err(e) => Err(e),
        }
    }
}

/// The typed multi-session rules section.
#[derive(Clone, Copy, Debug, PartialEq, Eq, Structural)]
pub struct MultiRules {
    pub packet_id: PacketId,
}

impl MultiRules {
    /// Decodes the multi-session rules page, as [`Rules::try_from`] does.
    pub fn try_from(value: &PageMultiRules) -> (r: Result<MultiRules, TelemetryError>)
        ensures
            r == match spec_packet_id(value.header) {
                Ok(id) => Ok::<MultiRules, TelemetryError>(MultiRules { packet_id: id }),
                Err(e) => Err::<MultiRules, TelemetryError>(e),
            },
    {
        match PacketId::try_from(value.header) {
            Ok(packet_id) => Ok(MultiRules { packet_id }),
            Err(e) => Err(e),
        }
    }
}

/// The typed pit information section.
#[derive(Clone, Copy, Debug, PartialEq, Eq, Structural)]
pub struct PitInfo {
    pub packet_id: PacketId,
}

impl PitInfo {
    /// Decodes the pit information page, as [`Rules::try_from`] does.
    pub fn try_from(value: &PagePitInfo) -> (r: Result<PitInfo, TelemetryError>)
        ensures
            r == match spec_packet_id(value.header) {
                Ok(id) => Ok::<PitInfo, TelemetryError>(PitInfo { packet_id: id }),
                Err(e) => Err::<PitInfo, TelemetryError>(e),
            },
    {
        match PacketId::try_from(value.header) {
            Ok(packet_id) => Ok(PitInfo { packet_id }),
            Err(e) => Err(e),
        }
    }
}

/// The typed weather section.
#[derive(Clone, Copy, Debug, PartialEq, Eq, Structural)]
pub struct Weather {
    pub packet_id: PacketId,
}

impl Weather {
    /// Decodes the weather page, as [`Rules::try_from`] does.
    pub fn try_from(value: &PageWeather) -> (r: Result<Weather, TelemetryError>)
        ensures
            r == match spec_packet_id(value.header) {
                Ok(id) => Ok::<Weather, TelemetryError>(Weather { packet_id: id }),
                Err(e) => Err::<Weather, TelemetryError>(e),
            },
    {
        match PacketId::try_from(value.header) {
            Ok(packet_id) => Ok(Weather { packet_id }),
            Err(e) => Err(e),
        }
    }
}

/// The typed extended-state section.
#[derive(Clone, Copy, Debug, PartialEq, Eq, Structural)]
pub struct Extended {
    pub packet_id: PacketId,
}

impl Extended {
    /// Decodes the extended-state page, as [`Rules::try_from`] does.
    pub fn try_from(value: &PageExtended) -> (r: Result<Extended, TelemetryError>)
        ensures
            r == match spec_packet_id(value.header) {
                Ok(id) => Ok::<Extended, TelemetryError>(Extended { packet_id: id }),
                Err(e) => Err::<Extended, TelemetryError>(e),
            },
    {
        match PacketId::try_from(value.header) {
            Ok(packet_id) => Ok(Extended { packet_id }),
            Err(e) => Err(e),
        }
    }
}

/// How many vehicle entries a decoded section holds for a reported count:
/// the count itself when it fits, clamped to `[0, capacity]` against a
/// corrupt or future producer reporting more entries than the fixed-size
/// array can hold.
pub open spec fn spec_clamped_count(reported: i32, capacity: usize) -> int {
    if reported < 0 {
        0
    } else if reported > capacity {
        capacity as int
    } else {
        reported as int
    }
}

/// Clamps a producer-reported vehicle count to the fixed array capacity, so
/// that decoding indexes the raw array strictly inside its bounds, whatever
/// the producer wrote.
pub fn clamp_vehicle_count(reported: i32, capacity: usize) -> (n: usize)
    ensures
        n == spec_clamped_count(reported, capacity),
        n <= capacity,
{
    if reported < 0 {
        0
    } else {
        let r = reported as usize;
        if r > capacity {
            capacity
        } else {
            r
        }
    }
}

} // verus!

//! The consumer-facing connection state machine.
//!
//! A connection moves through three phases: `Connecting` (retry opening the
//! region and waiting for liveness, indefinitely — the simulator may simply
//! not be started yet), `Live` (poll, read, decode, emit), and
//! `Disconnected` (the snapshot stream has ended; nothing more is emitted
//! without a new connect).  The outer layer performs the waiting, mapping and
//! copying, observes one event per cycle, and feeds it to [`step`]; every
//! decision — what to do next and whether the stream ends or fails — is made
//! here.
//!
//! Transient conditions (region missing, producer not live yet, a torn copy)
//! are absorbed: they never surface as failures.  Only an incompatible
//! producer version and an unrecoverable mapping error fail a connection
//! attempt, and only while connecting.

use vstd::prelude::*;

use crate::TelemetryError;

verus! {

/// Where a connection stands.
#[derive(Clone, Copy, Debug, PartialEq, Eq, Structural)]
pub enum ConnectionPhase {
    /// Retrying region open and the liveness gate.
    Connecting,
    /// Emitting a snapshot per verified frame.
    Live,
    /// The stream has ended; terminal.
    Disconnected,
}

/// What the outer layer observed during one cycle.
#[derive(Clone, Copy, Debug, PartialEq, Eq, Structural)]
pub enum ClientEvent {
    /// The named region does not exist yet.
    RegionMissing,
    /// Opening or mapping failed for an unrecoverable reason.
    OpenFailed,
    /// The region is mapped but the producer reports a layout version
    /// outside the supported range.
    VersionIncompatible { major: u16, minor: u16 },
    /// The liveness gate reports the producer not running.
    ProducerOff,
    /// The liveness gate passed.
    ProducerLive,
    /// The change detector saw nothing new.
    FrameUnchanged,
    /// Every copy attempt this cycle was torn and discarded.
    FrameTorn,
    /// A copy was verified and decoded.
    FramePublished,
}

/// What the outer layer must do next.
#[derive(Clone, Copy, Debug, PartialEq, Eq, Structural)]
pub enum ClientAction {
    /// Suspend for the poll interval (or until the wake event) and observe
    /// again.
    Wait,
    /// The connection attempt failed; surface the error to the caller.
    FailConnect { error: TelemetryError },
    /// Hand the decoded snapshot to the consumer.
    EmitSnapshot,
    /// The snapshot stream has ended, cleanly; emit nothing further.
    EndStream,
}

/// The transition relation.  While connecting, a missing region and a
/// not-yet-live producer are routine and simply retried; only an
/// incompatible version or an unrecoverable open failure fail the attempt.
/// While live, only a verified frame emits, and only a liveness loss (or a
/// vanished region) ends the stream; an idle or torn cycle waits.  The
/// disconnected phase is terminal.
pub open spec fn spec_step(phase: ConnectionPhase, event: ClientEvent) -> (
    ConnectionPhase,
    ClientAction,
) {
    match phase {
        ConnectionPhase::Connecting => match event {
            ClientEvent::RegionMissing => (ConnectionPhase::Connecting, ClientAction::Wait),
            ClientEvent::ProducerOff => (ConnectionPhase::Connecting, ClientAction::Wait),
            ClientEvent::OpenFailed => (
                ConnectionPhase::Disconnected,
                ClientAction::FailConnect { error: TelemetryError::OsResource },
            ),
            ClientEvent::VersionIncompatible { major, minor } => (
                ConnectionPhase::Disconnected,
                ClientAction::FailConnect {
                    error: TelemetryError::IncompatibleVersion { major, minor },
                },
            ),
            ClientEvent::ProducerLive => (ConnectionPhase::Live, ClientAction::Wait),
            _ => (ConnectionPhase::Connecting, ClientAction::Wait),
        },
        ConnectionPhase::Live => match event {
            ClientEvent::FramePublished => (ConnectionPhase::Live, ClientAction::EmitSnapshot),
            ClientEvent::FrameUnchanged => (ConnectionPhase::Live, ClientAction::Wait),
            ClientEvent::FrameTorn => (ConnectionPhase::Live, ClientAction::Wait),
            ClientEvent::ProducerOff => (ConnectionPhase::Disconnected, ClientAction::EndStream),
            ClientEvent::RegionMissing => (
                ConnectionPhase::Disconnected,
                ClientAction::EndStream,
            ),
            _ => (ConnectionPhase::Live, ClientAction::Wait),
        },
        ConnectionPhase::Disconnected => (ConnectionPhase::Disconnected, ClientAction::EndStream),
    }
}

/// One transition of the connection; see [`spec_step`].
pub fn step(phase: ConnectionPhase, event: ClientEvent) -> (r: (ConnectionPhase, ClientAction))
    ensures
        r == spec_step(phase, event),
{
    match phase {
        ConnectionPhase::Connecting => match event {
            ClientEvent::RegionMissing => (ConnectionPhase::Connecting, ClientAction::Wait),
            ClientEvent::ProducerOff => (ConnectionPhase::Connecting, ClientAction::Wait),
            ClientEvent::OpenFailed => (
                ConnectionPhase::Disconnected,
                ClientAction::FailConnect { error: TelemetryError::OsResource },
            ),
            ClientEvent::VersionIncompatible { major, minor } => (
                ConnectionPhase::Disconnected,
                ClientAction::FailConnect {
                    error: TelemetryError::IncompatibleVersion { major, minor },
                },
            ),
            ClientEvent::ProducerLive => (ConnectionPhase::Live, ClientAction::Wait),
            _ => (ConnectionPhase::Connecting, ClientAction::Wait),
        },
        ConnectionPhase::Live => match event {
            ClientEvent::FramePublished => (ConnectionPhase::Live, ClientAction::EmitSnapshot),
            ClientEvent::FrameUnchanged => (ConnectionPhase::Live, ClientAction::Wait),
            ClientEvent::FrameTorn => (ConnectionPhase::Live, ClientAction::Wait),
            ClientEvent::ProducerOff => (ConnectionPhase::Disconnected, ClientAction::EndStream),
            ClientEvent::RegionMissing => (
                ConnectionPhase::Disconnected,
                ClientAction::EndStream,
            ),
            _ => (ConnectionPhase::Live, ClientAction::Wait),
        },
        ConnectionPhase::Disconnected => (ConnectionPhase::Disconnected, ClientAction::EndStream),
    }
}

/// The actions a connection takes over a sequence of observed events.
pub open spec fn spec_run_actions(phase: ConnectionPhase, events: Seq<ClientEvent>) -> Seq<
    ClientAction,
>
    decreases events.len(),
{
    if events.len() == 0 {
        Seq::empty()
    } else {
        let r = spec_step(phase, events[0]);
        seq![r.1] + spec_run_actions(r.0, events.drop_first())
    }
}

/// Connecting never fails on transient conditions: however long the region
/// stays missing or the producer stays off, the connection keeps waiting —
/// it neither fails nor ends the stream.  A connect attempt can fail only on
/// an unrecoverable open error or an incompatible version.
pub proof fn lemma_connect_blocks_on_transients(phase: ConnectionPhase, event: ClientEvent)
    requires
        phase == ConnectionPhase::Connecting,
        event == ClientEvent::RegionMissing || event == ClientEvent::ProducerOff,
    ensures
        spec_step(phase, event) == (ConnectionPhase::Connecting, ClientAction::Wait),
{
}

/// A failure surfaces only at connect time, and only for the two fatal
/// conditions: whatever the phase and event, a `FailConnect` action implies
/// the connection was still connecting and the event was an unrecoverable
/// open error or an incompatible version, and the error surfaced is exactly
/// that condition.
pub proof fn lemma_failures_only_at_connect(phase: ConnectionPhase, event: ClientEvent)
    requires
        spec_step(phase, event).1 is FailConnect,
    ensures
        phase == ConnectionPhase::Connecting,
        event is OpenFailed || event is VersionIncompatible,
        event is OpenFailed ==> spec_step(phase, event).1 == (ClientAction::FailConnect {
            error: TelemetryError::OsResource,
        }),
        event matches ClientEvent::VersionIncompatible { major, minor } ==> spec_step(
            phase,
            event,
        ).1 == (ClientAction::FailConnect {
            error: TelemetryError::IncompatibleVersion { major, minor },
        }),
{
}

/// A torn copy and an idle cycle are routine, not exceptional: while live,
/// they neither end the stream, nor fail, nor emit a frame.
pub proof fn lemma_transients_keep_stream(phase: ConnectionPhase, event: ClientEvent)
    requires
        phase == ConnectionPhase::Live,
        event == ClientEvent::FrameTorn || event == ClientEvent::FrameUnchanged,
    ensures
        spec_step(phase, event) == (ConnectionPhase::Live, ClientAction::Wait),
{
}

/// A connection takes exactly one action per observed event.
pub proof fn lemma_run_actions_len(phase: ConnectionPhase, events: Seq<ClientEvent>)
    ensures
        spec_run_actions(phase, events).len() == events.len(),
    decreases events.len(),
{
    if events.len() > 0 {
        lemma_run_actions_len(spec_step(phase, events[0]).0, events.drop_first());
    }
}

/// The stream ends cleanly and for good: once disconnected, no sequence of
/// further events emits another snapshot or surfaces a failure — every
/// subsequent action is the end-of-stream mark.
pub proof fn lemma_no_emission_after_disconnect(events: Seq<ClientEvent>)
    ensures
        forall|k: int|
            0 <= k < events.len() ==> spec_run_actions(ConnectionPhase::Disconnected, events)[k]
                == ClientAction::EndStream,
    decreases events.len(),
{
    lemma_run_actions_len(ConnectionPhase::Disconnected, events);
    if events.len() > 0 {
        let tail = events.drop_first();
        lemma_no_emission_after_disconnect(tail);
        lemma_run_actions_len(ConnectionPhase::Disconnected, tail);
        let rest = spec_run_actions(ConnectionPhase::Disconnected, tail);
        let whole = spec_run_actions(ConnectionPhase::Disconnected, events);
        assert(whole == seq![ClientAction::EndStream] + rest);
        assert forall|k: int| 0 <= k < events.len() implies whole[k] == ClientAction::EndStream by {
            if k > 0 {
                assert(whole[k] == rest[k - 1]);
            }
        }
    }
}

} // verus!

use simetry::assetto_corsa::{
    check_version, is_connected, poll_outcome, AcApiV1, PageFileGraphicsTop, PageFileStaticTop,
    PollOutcome, Status,
};
use simetry::client::{step, ClientAction, ClientEvent, ConnectionPhase};
use simetry::iracing::{
    commit_frame, connection_is_live, is_header_connected, prepare_frame, select_latest_buffer,
    ClientCursor, FrameQuery, Header, VarBuf, CLIENT_TIMEOUT_MS,
};
use simetry::TelemetryError;

#[test]
fn end_to_end_phases_of_one_session() {
    // Simulator not yet running: connect blocks, never errors.
    let s = ConnectionPhase::Connecting;
    let (s, a) = step(s, ClientEvent::RegionMissing);
    assert_eq!((s, a), (ConnectionPhase::Connecting, ClientAction::Wait));
    let (s, a) = step(s, ClientEvent::ProducerOff);
    assert_eq!((s, a), (ConnectionPhase::Connecting, ClientAction::Wait));
    // A mapped region with the liveness bit set appears.
    let (s, a) = step(s, ClientEvent::ProducerLive);
    assert_eq!((s, a), (ConnectionPhase::Live, ClientAction::Wait));
    // The first verified frame is emitted.
    let (s, a) = step(s, ClientEvent::FramePublished);
    assert_eq!((s, a), (ConnectionPhase::Live, ClientAction::EmitSnapshot));
    // The liveness bit clears: end of stream, not an error, not a panic.
    let (s, a) = step(s, ClientEvent::ProducerOff);
    assert_eq!((s, a), (ConnectionPhase::Disconnected, ClientAction::EndStream));
    // Nothing more is ever emitted.
    let (_, a) = step(s, ClientEvent::FramePublished);
    assert_eq!(a, ClientAction::EndStream);
}

#[test]
fn torn_and_idle_cycles_are_routine() {
    let (s, a) = step(ConnectionPhase::Live, ClientEvent::FrameTorn);
    assert_eq!((s, a), (ConnectionPhase::Live, ClientAction::Wait));
    let (s, a) = step(ConnectionPhase::Live, ClientEvent::FrameUnchanged);
    assert_eq!((s, a), (ConnectionPhase::Live, ClientAction::Wait));
}

#[test]
fn only_fatal_conditions_fail_a_connect() {
    let (s, a) = step(ConnectionPhase::Connecting, ClientEvent::OpenFailed);
    assert_eq!(s, ConnectionPhase::Disconnected);
    assert_eq!(a, ClientAction::FailConnect { error: TelemetryError::OsResource });
    let (s, a) = step(
        ConnectionPhase::Connecting,
        ClientEvent::VersionIncompatible { major: 2, minor: 7 },
    );
    assert_eq!(s, ConnectionPhase::Disconnected);
    assert_eq!(
        a,
        ClientAction::FailConnect {
            error: TelemetryError::IncompatibleVersion { major: 2, minor: 7 }
        }
    );
}

#[test]
fn status_word_gates_liveness() {
    assert_eq!(Status::from_raw(0), Status::Off);
    assert_eq!(Status::from_raw(1), Status::Replay);
    assert_eq!(Status::from_raw(2), Status::Live);
    assert_eq!(Status::from_raw(3), Status::Pause);
    // An unknown status counts as not running.
    assert_eq!(Status::from_raw(7), Status::Off);

    assert!(is_connected(&PageFileGraphicsTop { packet_id: 0, status: 2 }));
    assert!(!is_connected(&PageFileGraphicsTop { packet_id: 0, status: 0 }));
    assert!(!is_connected(&PageFileGraphicsTop { packet_id: 0, status: 7 }));
}

#[test]
fn capability_checks_the_static_region_version() {
    let mut units = [0u16; 15];
    for (i, c) in "1.8".chars().enumerate() {
        units[i] = c as u16;
    }
    assert_eq!(check_version::<AcApiV1>(&PageFileStaticTop { sm_version: units }), Ok(()));
    for (i, c) in "2.0".chars().enumerate() {
        units[i] = c as u16;
    }
    assert_eq!(
        check_version::<AcApiV1>(&PageFileStaticTop { sm_version: units }),
        Err(TelemetryError::IncompatibleVersion { major: 2, minor: 0 })
    );
}

#[test]
fn poll_reports_exactly_the_changed_sections() {
    assert_eq!(poll_outcome(false, 1, 1, 1, 1), PollOutcome::Disconnected);
    assert_eq!(poll_outcome(true, 1, 1, 1, 1), PollOutcome::NoChange);
    assert_eq!(
        poll_outcome(true, 2, 1, 1, 1),
        PollOutcome::NewFrame { physics_changed: true, graphics_changed: false }
    );
    assert_eq!(
        poll_outcome(true, 2, 1, 5, 4),
        PollOutcome::NewFrame { physics_changed: true, graphics_changed: true }
    );
}

#[test]
fn header_status_bit_zero_means_connected() {
    let header = Header {
        status: 3,
        buf_len: 0,
        num_vars: 0,
        var_header_offset: 0,
        session_info_offset: 0,
        session_info_len: 0,
        var_buf: vec![],
    };
    assert!(is_header_connected(&header));
    let header = Header { status: 2, ..header };
    assert!(!is_header_connected(&header));
}

#[test]
fn freshest_buffer_wins_and_ties_take_the_lowest_index() {
    let bufs = vec![
        VarBuf { tick_count: 10, buf_offset: 0 },
        VarBuf { tick_count: 12, buf_offset: 100 },
        VarBuf { tick_count: 11, buf_offset: 200 },
    ];
    assert_eq!(select_latest_buffer(&bufs), 1);
    let bufs = vec![
        VarBuf { tick_count: 7, buf_offset: 0 },
        VarBuf { tick_count: 7, buf_offset: 100 },
    ];
    assert_eq!(select_latest_buffer(&bufs), 0);
}

#[test]
fn cursor_advances_only_on_verified_frames() {
    let mut cursor = ClientCursor::new();
    assert_eq!(cursor.last_tick_count, i32::MAX);

    // A disconnected producer resets the cursor.
    assert_eq!(prepare_frame(&mut cursor, false, 50), FrameQuery::Disconnected);
    assert_eq!(cursor.last_tick_count, i32::MAX);

    // The first observation after connecting adopts the current tick.
    assert_eq!(prepare_frame(&mut cursor, true, 50), FrameQuery::UpToDate);
    assert_eq!(cursor.last_tick_count, 50);

    // A newer tick asks for a copy; a torn copy leaves the cursor alone.
    assert_eq!(prepare_frame(&mut cursor, true, 51), FrameQuery::Read { tick: 51 });
    assert!(!commit_frame(&mut cursor, 51, 52));
    assert_eq!(cursor.last_tick_count, 50);

    // A clean copy advances it.
    assert!(commit_frame(&mut cursor, 52, 52));
    assert_eq!(cursor.last_tick_count, 52);
}

#[test]
fn schema_refresh_follows_the_declared_buffer_length() {
    let mut cursor = ClientCursor::new();
    assert!(cursor.needs_var_refresh(1024));
    cursor.note_vars_parsed(1024);
    assert!(!cursor.needs_var_refresh(1024));
    assert!(cursor.needs_var_refresh(2048));
}

#[test]
fn freshness_window_distinguishes_paused_from_dead() {
    assert!(connection_is_live(true, None, CLIENT_TIMEOUT_MS));
    assert!(connection_is_live(true, Some(29_999), CLIENT_TIMEOUT_MS));
    assert!(!connection_is_live(true, Some(30_000), CLIENT_TIMEOUT_MS));
    assert!(!connection_is_live(false, None, CLIENT_TIMEOUT_MS));
}

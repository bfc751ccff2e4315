//! Drives the whole verified pipeline over a fabricated region image: header
//! parse, buffer selection, the prepare/commit tick checks, and a named read
//! out of the accepted frame.

use simetry::iracing::{
    commit_frame, is_header_connected, parse_header, prepare_frame, select_latest_buffer,
    ClientCursor, FrameQuery, SimState, HEADER_SIZE,
};
use simetry::protocol::copy_region_bytes;
use simetry::schema::{parse_var_headers, VarValue, VAR_HEADER_SIZE};

fn put_i32(region: &mut [u8], offset: usize, value: i32) {
    region[offset..offset + 4].copy_from_slice(&value.to_le_bytes());
}

/// A region image: a connected header with two rotating buffers, a one-entry
/// variable table at 256, and 64-byte data buffers at 512 and 640.
fn fake_region(tick_a: i32, tick_b: i32, gear: i32) -> Vec<u8> {
    let mut region = vec![0u8; 1024];
    put_i32(&mut region, 4, 1); // status: connected
    put_i32(&mut region, 16, 4); // session text length
    put_i32(&mut region, 20, 768); // session text offset
    put_i32(&mut region, 24, 1); // one declared variable
    put_i32(&mut region, 28, 256); // variable table offset
    put_i32(&mut region, 32, 2); // two rotating buffers
    put_i32(&mut region, 36, 64); // buffer length
    put_i32(&mut region, 48, tick_a); // buffer 0 tick
    put_i32(&mut region, 52, 512); // buffer 0 offset
    put_i32(&mut region, 64, tick_b); // buffer 1 tick
    put_i32(&mut region, 68, 640); // buffer 1 offset

    // The variable table: "Gear", a scalar i32 at offset 8.
    put_i32(&mut region, 256, 2); // type tag: int
    put_i32(&mut region, 260, 8); // offset in the data buffer
    put_i32(&mut region, 264, 1); // scalar
    region[272..276].copy_from_slice(b"Gear");

    put_i32(&mut region, 512 + 8, gear - 1); // stale buffer 0
    put_i32(&mut region, 640 + 8, gear); // fresh buffer 1
    region[768..772].copy_from_slice(b"---\n");
    region
}

#[test]
fn header_parses_at_fixed_offsets() {
    let region = fake_region(6, 7, 3);
    let header = parse_header(&region).expect("image holds a header");
    assert!(is_header_connected(&header));
    assert_eq!(header.buf_len, 64);
    assert_eq!(header.num_vars, 1);
    assert_eq!(header.var_header_offset, 256);
    assert_eq!(header.session_info_offset, 768);
    assert_eq!(header.session_info_len, 4);
    assert_eq!(header.var_buf.len(), 2);
    assert_eq!(header.var_buf[1].tick_count, 7);
    assert_eq!(header.var_buf[1].buf_offset, 640);
}

#[test]
fn short_image_has_no_header() {
    assert!(parse_header(&vec![0u8; HEADER_SIZE - 1]).is_none());
}

#[test]
fn corrupt_buffer_count_is_clamped() {
    let mut region = fake_region(6, 7, 3);
    put_i32(&mut region, 32, 1000);
    let header = parse_header(&region).expect("image holds a header");
    assert_eq!(header.var_buf.len(), 4);
    put_i32(&mut region, 32, -3);
    let header = parse_header(&region).expect("image holds a header");
    assert_eq!(header.var_buf.len(), 0);
}

#[test]
fn full_pipeline_yields_a_verified_frame() {
    let region = fake_region(6, 7, 3);
    let header = parse_header(&region).unwrap();

    let table = copy_region_bytes(
        &region,
        header.var_header_offset as usize,
        header.num_vars as usize * VAR_HEADER_SIZE,
    )
    .unwrap();
    let vars = parse_var_headers(&table, header.num_vars as usize);

    let mut cursor = ClientCursor::new();
    cursor.note_vars_parsed(header.buf_len);
    // Adopt the current tick, as the first poll after connecting does.
    assert_eq!(
        prepare_frame(&mut cursor, is_header_connected(&header), 5),
        FrameQuery::UpToDate
    );

    let latest = select_latest_buffer(&header.var_buf);
    assert_eq!(latest, 1);
    let tick = header.var_buf[latest].tick_count;
    assert_eq!(
        prepare_frame(&mut cursor, is_header_connected(&header), tick),
        FrameQuery::Read { tick }
    );

    let data = copy_region_bytes(
        &region,
        header.var_buf[latest].buf_offset as usize,
        header.buf_len as usize,
    )
    .unwrap();
    // The buffer's tick did not move during the copy: the frame is accepted.
    assert!(commit_frame(&mut cursor, tick, tick));
    assert_eq!(cursor.last_tick_count, 7);

    let session = copy_region_bytes(
        &region,
        header.session_info_offset as usize,
        header.session_info_len as usize,
    )
    .unwrap();
    let state = SimState::new(header, vars, data, session);
    assert_eq!(state.read_named("Gear"), Some(VarValue::Int(3)));
    assert_eq!(state.raw_session_info, b"---\n".to_vec());
}

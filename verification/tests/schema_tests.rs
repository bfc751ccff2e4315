use simetry::iracing::{Header, SimState, VarBuf};
use simetry::schema::{
    find_var, parse_var_headers, read_named, read_var, VarHeader, VarType, VarValue,
    VAR_HEADER_SIZE,
};

/// Builds one raw 144-byte table entry.
fn raw_entry(tag: i32, offset: i32, count: i32, name: &str) -> Vec<u8> {
    let mut entry = vec![0u8; VAR_HEADER_SIZE];
    entry[0..4].copy_from_slice(&tag.to_le_bytes());
    entry[4..8].copy_from_slice(&offset.to_le_bytes());
    entry[8..12].copy_from_slice(&count.to_le_bytes());
    let name_bytes = name.as_bytes();
    entry[16..16 + name_bytes.len()].copy_from_slice(name_bytes);
    entry
}

fn rpm_gear_table() -> Vec<u8> {
    let mut raw = raw_entry(4, 40, 1, "RPM");
    raw.extend(raw_entry(2, 44, 1, "Gear"));
    raw
}

fn rpm_gear_buffer() -> Vec<u8> {
    let mut buf = vec![0u8; 64];
    buf[40..44].copy_from_slice(&4.0f32.to_le_bytes());
    buf[44..48].copy_from_slice(&3i32.to_le_bytes());
    buf
}

#[test]
fn schema_round_trip_reads_rpm_and_gear() {
    let vars = parse_var_headers(&rpm_gear_table(), 2);
    assert_eq!(vars.len(), 2);
    let buf = rpm_gear_buffer();

    let rpm = read_named(&vars, &buf, "RPM");
    match rpm {
        Some(VarValue::FloatBits(bits)) => assert_eq!(f32::from_bits(bits), 4.0),
        other => panic!("expected a float value for RPM, got {:?}", other),
    }
    assert_eq!(read_named(&vars, &buf, "Gear"), Some(VarValue::Int(3)));
}

#[test]
fn undeclared_name_reads_as_not_found() {
    let vars = parse_var_headers(&rpm_gear_table(), 2);
    assert_eq!(read_named(&vars, &rpm_gear_buffer(), "Speed"), None);
}

#[test]
fn decoding_twice_yields_equal_output() {
    let raw = rpm_gear_table();
    let buf = rpm_gear_buffer();
    let first = parse_var_headers(&raw, 2);
    let second = parse_var_headers(&raw, 2);
    assert_eq!(first, second);
    assert_eq!(read_named(&first, &buf, "RPM"), read_named(&second, &buf, "RPM"));
    assert_eq!(read_named(&first, &buf, "Gear"), read_named(&second, &buf, "Gear"));
}

#[test]
fn unknown_type_tags_are_skipped_not_fatal() {
    let mut raw = raw_entry(9, 0, 1, "Mystery");
    raw.extend(raw_entry(2, 44, 1, "Gear"));
    let vars = parse_var_headers(&raw, 2);
    assert_eq!(vars.len(), 1);
    assert_eq!(vars[0].name, "Gear");
    assert_eq!(read_named(&vars, &rpm_gear_buffer(), "Gear"), Some(VarValue::Int(3)));
    assert_eq!(read_named(&vars, &rpm_gear_buffer(), "Mystery"), None);
}

#[test]
fn negative_offset_or_count_is_skipped() {
    let mut raw = raw_entry(2, -4, 1, "Bad");
    raw.extend(raw_entry(2, 44, -1, "AlsoBad"));
    let vars = parse_var_headers(&raw, 2);
    assert!(vars.is_empty());
}

#[test]
fn declared_count_is_clamped_to_table_bytes() {
    // The producer claims four entries but only one fits the mapped bytes.
    let raw = raw_entry(2, 44, 1, "Gear");
    let vars = parse_var_headers(&raw, 4);
    assert_eq!(vars.len(), 1);
}

#[test]
fn reads_outside_the_buffer_are_refused() {
    let vars = vec![VarHeader {
        name: String::from("Tail"),
        var_type: VarType::Int,
        offset: 62,
        count: 1,
    }];
    let buf = vec![0u8; 64];
    assert_eq!(read_named(&vars, &buf, "Tail"), None);
}

#[test]
fn array_variables_read_by_index() {
    let vars = parse_var_headers(&raw_entry(2, 0, 3, "Laps"), 1);
    let mut buf = vec![0u8; 12];
    buf[0..4].copy_from_slice(&10i32.to_le_bytes());
    buf[4..8].copy_from_slice(&(-20i32).to_le_bytes());
    buf[8..12].copy_from_slice(&30i32.to_le_bytes());
    assert_eq!(read_var(&buf, &vars[0], 0), Some(VarValue::Int(10)));
    assert_eq!(read_var(&buf, &vars[0], 1), Some(VarValue::Int(-20)));
    assert_eq!(read_var(&buf, &vars[0], 2), Some(VarValue::Int(30)));
    assert_eq!(read_var(&buf, &vars[0], 3), None);
}

#[test]
fn lookup_returns_first_declaration() {
    let mut raw = raw_entry(2, 0, 1, "Twin");
    raw.extend(raw_entry(4, 4, 1, "Twin"));
    let vars = parse_var_headers(&raw, 2);
    let hit = find_var(&vars, "Twin").expect("declared name should be found");
    assert_eq!(hit.var_type, VarType::Int);
    assert_eq!(hit.offset, 0);
}

#[test]
fn snapshot_reads_named_values() {
    let header = Header {
        status: 1,
        buf_len: 64,
        num_vars: 2,
        var_header_offset: 144,
        session_info_offset: 0,
        session_info_len: 0,
        var_buf: vec![VarBuf { tick_count: 5, buf_offset: 0 }],
    };
    let vars = parse_var_headers(&rpm_gear_table(), 2);
    let state = SimState::new(header, vars, rpm_gear_buffer(), b"session".to_vec());
    assert_eq!(state.read_named("Gear"), Some(VarValue::Int(3)));
    assert_eq!(state.read_named("Missing"), None);
}

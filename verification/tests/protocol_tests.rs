use simetry::protocol::{copy_region_bytes, has_new_frame, read_is_consistent};
use simetry::rfactor_2::{
    clamp_vehicle_count, PacketId, PageHeader, PageRules, PageWeather, Rules, Weather,
    MAX_MAPPED_VEHICLES,
};
use simetry::TelemetryError;

#[test]
fn detector_is_quiet_on_unmodified_token() {
    assert!(!has_new_frame(41, 41));
}

#[test]
fn detector_reports_any_moved_token() {
    assert!(has_new_frame(42, 41));
    // A producer restart can lower the id; that still counts as a change.
    assert!(has_new_frame(3, 41));
}

#[test]
fn consistency_check_accepts_only_equal_tokens() {
    assert!(read_is_consistent(7, 7));
    assert!(!read_is_consistent(7, 8));
}

#[test]
fn packet_id_accepts_quiescent_header() {
    let header = PageHeader { version_update_begin: 12, version_update_end: 12 };
    assert_eq!(PacketId::try_from(header), Ok(PacketId(12)));
}

#[test]
fn packet_id_rejects_header_caught_mid_write() {
    let header = PageHeader { version_update_begin: 13, version_update_end: 12 };
    assert_eq!(PacketId::try_from(header), Err(TelemetryError::Torn));
}

#[test]
fn typed_sections_propagate_torn_headers() {
    let torn = PageHeader { version_update_begin: 9, version_update_end: 8 };
    let settled = PageHeader { version_update_begin: 9, version_update_end: 9 };
    assert_eq!(
        Rules::try_from(&PageRules { header: torn, bytes_updated_hint: 0 }),
        Err(TelemetryError::Torn)
    );
    assert_eq!(
        Rules::try_from(&PageRules { header: settled, bytes_updated_hint: 0 }),
        Ok(Rules { packet_id: PacketId(9) })
    );
    assert_eq!(
        Weather::try_from(&PageWeather { header: settled }),
        Ok(Weather { packet_id: PacketId(9) })
    );
}

#[test]
fn vehicle_count_is_clamped_to_capacity() {
    // A corrupt or future producer reporting 200 vehicles still yields
    // exactly the fixed capacity of 128 entries.
    assert_eq!(clamp_vehicle_count(200, MAX_MAPPED_VEHICLES), 128);
    assert_eq!(clamp_vehicle_count(-5, MAX_MAPPED_VEHICLES), 0);
    assert_eq!(clamp_vehicle_count(64, MAX_MAPPED_VEHICLES), 64);
    assert_eq!(clamp_vehicle_count(128, MAX_MAPPED_VEHICLES), 128);
}

#[test]
fn region_copy_is_bounds_checked() {
    let region: Vec<u8> = (0u8..16).collect();
    assert_eq!(copy_region_bytes(&region, 4, 4), Some(vec![4, 5, 6, 7]));
    assert_eq!(copy_region_bytes(&region, 0, 16), Some((0u8..16).collect()));
    assert_eq!(copy_region_bytes(&region, 12, 5), None);
    assert_eq!(copy_region_bytes(&region, 16, 1), None);
    assert_eq!(copy_region_bytes(&region, 16, 0), Some(vec![]));
}

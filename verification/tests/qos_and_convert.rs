use zenoh_flat::convert::{as_signed, as_signed32, as_unsigned};
use zenoh_flat::qos::CongestionControl;

#[test]
fn congestion_control_codes() {
    assert_eq!(CongestionControl::Drop.code(), 0);
    assert_eq!(CongestionControl::Block.code(), 1);
    assert_eq!(CongestionControl::BlockFirst.code(), 2);
}

#[test]
fn congestion_control_from_code() {
    assert_eq!(CongestionControl::from_code(0), Some(CongestionControl::Drop));
    assert_eq!(CongestionControl::from_code(1), Some(CongestionControl::Block));
    assert_eq!(CongestionControl::from_code(2), Some(CongestionControl::BlockFirst));
    assert_eq!(CongestionControl::from_code(3), None);
    assert_eq!(CongestionControl::from_code(-1), None);
}

#[test]
fn congestion_control_code_round_trip() {
    for c in [CongestionControl::Drop, CongestionControl::Block, CongestionControl::BlockFirst] {
        assert_eq!(CongestionControl::from_code(c.code()), Some(c));
    }
}

#[test]
fn unsigned_reading_keeps_non_negative_values() {
    assert_eq!(as_unsigned(0), 0);
    assert_eq!(as_unsigned(1500), 1500);
    assert_eq!(as_unsigned(i64::MAX), 9_223_372_036_854_775_807);
}

#[test]
fn unsigned_reading_wraps_negative_values() {
    assert_eq!(as_unsigned(-1), u64::MAX);
    assert_eq!(as_unsigned(i64::MIN), 9_223_372_036_854_775_808);
}

#[test]
fn signed_reading_wraps_high_values() {
    assert_eq!(as_signed(7), 7);
    assert_eq!(as_signed(u64::MAX), -1);
    assert_eq!(as_signed(1u64 << 63), i64::MIN);
    assert_eq!(as_signed32(5), 5);
    assert_eq!(as_signed32(u32::MAX), -1);
    assert_eq!(as_signed32(0x8000_0000), i32::MIN);
}

#[test]
fn signed_unsigned_round_trip() {
    for v in [0i64, 1, -1, 42, -42, i64::MAX, i64::MIN, 7_000_000_000_000] {
        assert_eq!(as_signed(as_unsigned(v)), v);
    }
    for v in [0u64, 1, u64::MAX, 1u64 << 63, 123_456_789] {
        assert_eq!(as_unsigned(as_signed(v)), v);
    }
}

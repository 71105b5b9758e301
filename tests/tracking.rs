use barectf_parser::config::{IntegerFieldType, PreferredDisplayBase, UnsignedIntegerFieldType};
use barectf_parser::types::{TrackingInstant, UnsupportedTimestampFieldType};

fn timestamp_ft(size_bits: usize) -> UnsignedIntegerFieldType {
    UnsignedIntegerFieldType {
        field_type: IntegerFieldType {
            size: size_bits,
            alignment: 8, // byte-packed
            preferred_display_base: PreferredDisplayBase::Decimal,
        },
    }
}

#[test]
fn rollover_tracking_u8() {
    // 5 ticks before rollover
    let t0 = u8::MAX - 5;

    // 10 ticks after rollover
    let t1 = 10_u8;

    let mut instant = TrackingInstant::new(&timestamp_ft(8)).unwrap();
    assert_eq!(instant.elapsed(t0.into()), u64::from(t0));

    let t2 = instant.elapsed(t1.into());
    assert_eq!(u64::from(t0) + 16, t2);
}

#[test]
fn rollover_tracking_u16() {
    // 5 ticks before rollover
    let t0 = u16::MAX - 5;

    // 10 ticks after rollover
    let t1 = 10_u16;

    let mut instant = TrackingInstant::new(&timestamp_ft(16)).unwrap();
    assert_eq!(instant.elapsed(t0.into()), u64::from(t0));

    let t2 = instant.elapsed(t1.into());
    assert_eq!(u64::from(t0) + 16, t2);
}

#[test]
fn rollover_tracking_u32() {
    // 5 ticks before rollover
    let t0 = u32::MAX - 5;

    // 10 ticks after rollover
    let t1 = 10_u32;

    let mut instant = TrackingInstant::new(&timestamp_ft(32)).unwrap();
    assert_eq!(instant.elapsed(t0.into()), u64::from(t0));

    let t2 = instant.elapsed(t1.into());
    assert_eq!(u64::from(t0) + 16, t2);
}

#[test]
fn no_rollover_tracking_u64() {
    // 5 ticks before rollover
    let t0 = u64::MAX - 5;

    // 10 ticks after rollover
    let t1 = 10_u64;

    let mut instant = TrackingInstant::new(&timestamp_ft(64)).unwrap();
    assert_eq!(instant.elapsed(t0), t0);

    let t2 = instant.elapsed(t1);
    assert_eq!(t1, t2);
}

#[test]
fn unsupported_timestamp_field_type() {
    assert_eq!(
        TrackingInstant::new(&timestamp_ft(24)),
        Err(UnsupportedTimestampFieldType {})
    );
}

#[test]
fn rollover_counts_once_per_wrap() {
    let mut instant = TrackingInstant::new(&timestamp_ft(8)).unwrap();
    assert_eq!(instant.elapsed(200), 200);
    assert_eq!(instant.elapsed(100), 256 + 100);
    assert_eq!(instant.elapsed(150), 256 + 150);
    assert_eq!(instant.elapsed(5), 512 + 5);
}

#[test]
fn reset_clears_rollovers() {
    let mut instant = TrackingInstant::new(&timestamp_ft(16)).unwrap();
    instant.elapsed(60000);
    instant.elapsed(3);
    assert_eq!(instant.as_timestamp(), 65536 + 3);
    instant.reset();
    assert_eq!(instant.as_timestamp(), 0);
    instant.reset_to(7, 2);
    assert_eq!(instant.as_timestamp(), 2 * 65536 + 7);
}

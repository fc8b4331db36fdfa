use timers::codec::deserialize_u64;
use timers::codec::serialize_u64;
use timers::hms::format_hms;
use timers::hms::format_hms_cs;
use timers::hms::format_ms;

#[test]
fn test_format_hms() {
    assert_eq!(format_hms(0), "00:00:00");
    assert_eq!(format_hms(61_000), "00:01:01");
    assert_eq!(format_hms(3661_000), "01:01:01");
}

#[test]
fn test_format_hms_cs() {
    assert_eq!(format_hms_cs(0), "00:00:00.00");
    assert_eq!(format_hms_cs(12_340), "00:00:12.34");
}

#[test]
fn test_format_ms() {
    assert_eq!(format_ms(0), "00:00");
    assert_eq!(format_ms(1_500_000), "25:00");
    assert_eq!(format_ms(300_000), "05:00");
}

#[test]
fn test_serialize_deserialize() {
    let val = 123456789u64;
    let bytes = serialize_u64(val);
    assert_eq!(deserialize_u64(&bytes), val);
}

#[test]
fn wide_fields_keep_all_their_digits() {
    // 123 hours, and 123 minutes in the short form.
    assert_eq!(format_hms(123 * 3600 * 1000 + 4 * 60 * 1000 + 5000), "123:04:05");
    assert_eq!(format_ms(123 * 60 * 1000 + 45_000), "123:45");
}

#[test]
fn centiseconds_truncate_to_two_places() {
    assert_eq!(format_hms_cs(999), "00:00:00.99");
    assert_eq!(format_hms_cs(1_009), "00:00:01.00");
}

#[test]
fn deserialize_short_input_is_zero() {
    assert_eq!(deserialize_u64(&[1, 2, 3]), 0);
    assert_eq!(deserialize_u64(&[]), 0);
}

#[test]
fn serialize_is_little_endian() {
    assert_eq!(serialize_u64(0x0102_0304_0506_0708), [8, 7, 6, 5, 4, 3, 2, 1]);
    // Extra trailing bytes are ignored.
    assert_eq!(deserialize_u64(&[9, 0, 0, 0, 0, 0, 0, 0, 0xff, 0xff]), 9);
}

use timers::parse::parse_mmss;

#[test]
fn minutes_and_seconds() {
    assert_eq!(parse_mmss("05:00"), 300_000);
    assert_eq!(parse_mmss("1:30"), 90_000);
    assert_eq!(parse_mmss("0:05"), 5_000);
    assert_eq!(parse_mmss("00:00"), 0);
}

#[test]
fn bare_seconds() {
    assert_eq!(parse_mmss("90"), 90_000);
    assert_eq!(parse_mmss("0"), 0);
    assert_eq!(parse_mmss("+5"), 5_000);
}

#[test]
fn whitespace_around_fields_is_ignored() {
    assert_eq!(parse_mmss(" 5 : 30 "), 330_000);
    assert_eq!(parse_mmss("\t42\n"), 42_000);
}

#[test]
fn an_unreadable_field_counts_as_zero() {
    assert_eq!(parse_mmss("ab:30"), 30_000);
    assert_eq!(parse_mmss("5:xy"), 300_000);
    assert_eq!(parse_mmss("5:"), 300_000);
    assert_eq!(parse_mmss(":30"), 30_000);
    assert_eq!(parse_mmss("abc"), 0);
    assert_eq!(parse_mmss(""), 0);
    assert_eq!(parse_mmss("-5"), 0);
    assert_eq!(parse_mmss("\u{6642}\u{9593}"), 0);
}

#[test]
fn too_many_fields_or_an_overflowing_value_is_zero() {
    assert_eq!(parse_mmss("1:2:3"), 0);
    assert_eq!(parse_mmss("::"), 0);
    // 2^64 does not fit, so the field is unreadable.
    assert_eq!(parse_mmss("18446744073709551616"), 0);
    // The value fits but the milliseconds would not.
    assert_eq!(parse_mmss("18446744073709551615"), 0);
    assert_eq!(parse_mmss("18446744073709551615:00"), 0);
}

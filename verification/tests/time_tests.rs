use tela::time::civil_from_unix_millis;

#[test]
fn epoch_in_utc_and_positive_offset() {
    let utc = civil_from_unix_millis(0, 0);
    assert_eq!(utc.year, 1970);
    assert_eq!(utc.month, 1);
    assert_eq!(utc.day, 1);
    assert_eq!((utc.hour, utc.minute, utc.second), (0, 0, 0));

    let beijing = civil_from_unix_millis(0, 28_800);
    assert_eq!((beijing.hour, beijing.minute), (8, 0));
}

#[test]
fn negative_offset_crosses_day_boundary() {
    // 1970-01-01T00:30:00Z in UTC-1 is 1969-12-31T23:30:00.
    let western = civil_from_unix_millis(30 * 60 * 1000, -3_600);
    assert_eq!((western.year, western.month, western.day), (1969, 12, 31));
    assert_eq!((western.hour, western.minute), (23, 30));
}

#[test]
fn leap_year_february_29() {
    // 2024-02-29T00:00:00Z = unix 1709164800000.
    let leap = civil_from_unix_millis(1_709_164_800_000, 0);
    assert_eq!((leap.year, leap.month, leap.day), (2024, 2, 29));
}

#[test]
fn midnight_rollover_with_dst_like_offset() {
    // 2026-08-20T16:30:00Z in UTC+8 = 2026-08-21T00:30:00.
    let ts = 1_787_243_400_000u64;
    let local = civil_from_unix_millis(ts, 28_800);
    assert_eq!((local.year, local.month, local.day), (2026, 8, 21));
    assert_eq!((local.hour, local.minute), (0, 30));
}

#[test]
fn seconds_of_the_day_are_split_exactly() {
    // 2000-03-01T12:34:56Z.
    let t = civil_from_unix_millis(951_914_096_000, 0);
    assert_eq!((t.year, t.month, t.day), (2000, 3, 1));
    assert_eq!((t.hour, t.minute, t.second), (12, 34, 56));
}

#[test]
fn century_years_follow_the_gregorian_rule() {
    // 2100 is not a leap year: 2100-02-28 is followed by 2100-03-01 (4107542400 s).
    let march = civil_from_unix_millis(4_107_542_400_000, 0);
    assert_eq!((march.year, march.month, march.day), (2100, 3, 1));
    let before = civil_from_unix_millis(4_107_542_400_000 - 1000, 0);
    assert_eq!((before.year, before.month, before.day), (2100, 2, 28));
}

#[test]
fn stamps_past_i64_wrap_before_the_epoch() {
    // u64::MAX wraps to -1 ms: truncated to 0 s, so the epoch itself.
    let wrapped = civil_from_unix_millis(u64::MAX, 0);
    assert_eq!((wrapped.year, wrapped.month, wrapped.day), (1970, 1, 1));
    assert_eq!((wrapped.hour, wrapped.minute, wrapped.second), (0, 0, 0));
}

use kal_time::{
    complete_fields, parse_partial, parse_utc, parse_with_reference, pick_local_offset, Civil,
    Instant, LocalOffsets, Partial, PatternError, TimeError,
};

fn civil(year: i32, month: u32, day: u32, hour: u32, minute: u32, second: u32) -> Civil {
    Civil { year, month, day, hour, minute, second, nanosecond: 0 }
}

fn at(year: i32, month: u32, day: u32, hour: u32, minute: u32, second: u32, offset: i32) -> Instant {
    Instant::from_civil(civil(year, month, day, hour, minute, second), offset).unwrap()
}

fn utc(year: i32, month: u32, day: u32, hour: u32, minute: u32, second: u32) -> Instant {
    at(year, month, day, hour, minute, second, 0)
}

fn pp(s: &str, reference: &Instant) -> Result<Instant, TimeError> {
    parse_with_reference(s, reference)
}

fn pf(s: &str, fmt: &str, reference: &Instant, zeroes: bool) -> Result<Instant, TimeError> {
    parse_partial(s, fmt, reference, zeroes)
}

fn empty_partial() -> Partial {
    Partial {
        year: None,
        month: None,
        day: None,
        hour_div_12: None,
        hour_mod_12: None,
        minute: None,
        second: None,
        nanosecond: None,
        timestamp: None,
    }
}

#[test]
fn test_simple() {
    let dt = utc(2014, 7, 8, 9, 10, 11);
    assert_eq!(pp("2014-07-08", &dt), Ok(utc(2014, 7, 8, 0, 0, 0)));
    assert_eq!(pp("2015-01-01 08:08", &dt), Ok(utc(2015, 1, 1, 8, 8, 0)));
    assert_eq!(pp("9h", &dt), Ok(utc(2014, 7, 8, 9, 0, 0)));
    assert_eq!(pp("30m", &dt), Ok(utc(2014, 7, 8, 9, 30, 0)));
}

#[test]
fn test_ts() {
    let dt = utc(2014, 7, 8, 9, 10, 11);
    assert_eq!(pp("@1704150000", &dt), Ok(utc(2024, 1, 1, 23, 0, 0)));
}

#[test]
fn test_simple_utc() {
    let dt = utc(2014, 7, 8, 9, 10, 11);
    assert_eq!(pf("", "", &dt, false), Ok(utc(2014, 7, 8, 9, 10, 11)));
    assert_eq!(pf("2015", "%Y", &dt, false), Ok(utc(2015, 7, 8, 9, 10, 11)));
    assert_eq!(pf("2015-02", "%Y-%m", &dt, false), Ok(utc(2015, 2, 8, 9, 10, 11)));
    assert_eq!(pf("2015-02-01", "%Y-%m-%d", &dt, false), Ok(utc(2015, 2, 1, 9, 10, 11)));
    assert_eq!(pf("2015-02-01 23", "%Y-%m-%d %H", &dt, false), Ok(utc(2015, 2, 1, 23, 10, 11)));
    assert_eq!(
        pf("2015-02-01 23:22", "%Y-%m-%d %H:%M", &dt, false),
        Ok(utc(2015, 2, 1, 23, 22, 11))
    );
    assert_eq!(
        pf("2015-02-01 23:22:12", "%Y-%m-%d %H:%M:%S", &dt, false),
        Ok(utc(2015, 2, 1, 23, 22, 12))
    );
}

#[test]
fn test_err() {
    let dt = utc(2014, 7, 8, 9, 10, 11);
    assert_eq!(pf("9999999999", "%Y", &dt, false), Err(TimeError::Pattern(PatternError::TooLong)));
    assert_eq!(pf("2015 toto", "%Y %M", &dt, false), Err(TimeError::Pattern(PatternError::Invalid)));
}

#[test]
fn test_fill_right() {
    let dt = utc(2014, 7, 8, 9, 10, 11);
    assert_eq!(pf("2015", "%Y", &dt, true), Ok(utc(2015, 1, 1, 0, 0, 0)));
    assert_eq!(pf("12", "%H", &dt, true), Ok(utc(2014, 7, 8, 12, 0, 0)));
}

#[test]
fn full_string_round_trips_in_utc() {
    let dt = utc(2014, 7, 8, 9, 10, 11);
    let r = pp("2015-02-01 23:22:12", &dt).unwrap();
    assert_eq!(r, utc(2015, 2, 1, 23, 22, 12));
    assert_eq!(r.civil(), Some(civil(2015, 2, 1, 23, 22, 12)));
    assert_eq!(r.offset, 0);
}

#[test]
fn empty_input_returns_reference() {
    let a = utc(2014, 7, 8, 9, 10, 11);
    let b = Instant { secs: 1_000_000_007, nanos: 42, offset: 7200 };
    assert_eq!(pp("", &a), Ok(a));
    assert_eq!(pp("", &b), Ok(b));
}

#[test]
fn year_alone_ignores_reference() {
    let a = utc(2014, 7, 8, 9, 10, 11);
    let b = utc(1999, 12, 31, 23, 59, 59);
    assert_eq!(pf("2015", "%Y", &a, true), Ok(utc(2015, 1, 1, 0, 0, 0)));
    assert_eq!(pf("2015", "%Y", &b, true), Ok(utc(2015, 1, 1, 0, 0, 0)));
}

#[test]
fn absolute_time_ignores_reference_offset() {
    let a = utc(2014, 7, 8, 9, 10, 11);
    let b = at(2014, 7, 8, 9, 10, 11, 3600);
    let expected = Instant { secs: 1_704_150_000, nanos: 0, offset: 0 };
    assert_eq!(pp("@1704150000", &a), Ok(expected));
    assert_eq!(pp("@1704150000", &b), Ok(expected));
}

#[test]
fn absolute_time_out_of_range() {
    let a = utc(2014, 7, 8, 9, 10, 11);
    assert_eq!(pp("@9000000000000000000", &a), Err(TimeError::OutOfRange));
}

#[test]
fn full_string_is_idempotent_for_utc_references() {
    let a = utc(2014, 7, 8, 9, 10, 11);
    let b = utc(2030, 1, 2, 3, 4, 5);
    let first = pp("2025-10-22 03:17:09", &a);
    assert_eq!(first, pp("2025-10-22 03:17:09", &a));
    assert_eq!(first, pp("2025-10-22 03:17:09", &b));
    assert_eq!(first, Ok(utc(2025, 10, 22, 3, 17, 9)));
}

#[test]
fn no_pattern_matches() {
    let a = utc(2014, 7, 8, 9, 10, 11);
    assert_eq!(pp("next tuesday", &a), Err(TimeError::FormatMismatch("next tuesday".to_string())));
}

#[test]
fn impossible_date_is_an_invalid_field() {
    let a = utc(2014, 7, 8, 9, 10, 11);
    assert_eq!(pp("2015-02-30", &a), Err(TimeError::InvalidField));
}

#[test]
fn unrepresentable_reference_is_out_of_range() {
    let r = Instant { secs: i64::MAX, nanos: 0, offset: 0 };
    assert_eq!(pp("10:15", &r), Err(TimeError::OutOfRange));
}

#[test]
fn month_day_and_hour_patterns() {
    let a = utc(2014, 7, 8, 9, 10, 11);
    assert_eq!(pp("02/14", &a), Ok(utc(2014, 2, 14, 0, 0, 0)));
    assert_eq!(pp("12-25 10:30", &a), Ok(utc(2014, 12, 25, 10, 30, 0)));
    assert_eq!(pp("15 7h45", &a), Ok(utc(2014, 7, 15, 7, 45, 0)));
    assert_eq!(pp("10:15:20", &a), Ok(utc(2014, 7, 8, 10, 15, 20)));
    assert_eq!(pp("45", &a), Ok(utc(2014, 7, 8, 9, 45, 0)));
}

#[test]
fn local_reference_keeps_wall_clock() {
    let r = at(2025, 7, 1, 12, 0, 0, 7200);
    let t = pp("2025-10-22 03:17", &r).unwrap();
    assert_eq!(t.civil(), Some(civil(2025, 10, 22, 3, 17, 0)));
}

#[test]
fn parse_utc_uses_utc() {
    let t = parse_utc("2015-02-01 23:22:12").unwrap();
    assert_eq!(t, utc(2015, 2, 1, 23, 22, 12));
}

#[test]
fn completion_zero_and_borrow() {
    let reference = Civil { year: 2014, month: 7, day: 8, hour: 9, minute: 10, second: 11, nanosecond: 5 };
    let mut p = empty_partial();
    p.hour_div_12 = Some(1);
    p.hour_mod_12 = Some(0);
    let c = complete_fields(&p, &reference, true);
    assert_eq!(c, Civil { year: 2014, month: 7, day: 8, hour: 12, minute: 0, second: 0, nanosecond: 0 });
    let c = complete_fields(&p, &reference, false);
    assert_eq!(c, Civil { year: 2014, month: 7, day: 8, hour: 12, minute: 10, second: 11, nanosecond: 5 });
    let c = complete_fields(&empty_partial(), &reference, true);
    assert_eq!(c, Civil { year: 1970, month: 1, day: 1, hour: 0, minute: 0, second: 0, nanosecond: 0 });
}

#[test]
fn local_offset_choice() {
    assert_eq!(
        pick_local_offset((10_000, 5), LocalOffsets::Single(3600)),
        Ok(Instant { secs: 6400, nanos: 5, offset: 3600 })
    );
    assert_eq!(
        pick_local_offset((10_000, 0), LocalOffsets::Ambiguous(7200, 3600)),
        Ok(Instant { secs: 2800, nanos: 0, offset: 7200 })
    );
    assert_eq!(
        pick_local_offset((10_000, 0), LocalOffsets::Ambiguous(3600, 7200)),
        Ok(Instant { secs: 2800, nanos: 0, offset: 7200 })
    );
    assert_eq!(
        pick_local_offset((10_000, 0), LocalOffsets::Nonexistent),
        Err(TimeError::LocalTimeNonexistent)
    );
    assert_eq!(
        pick_local_offset((i64::MIN, 0), LocalOffsets::Single(3600)),
        Err(TimeError::OutOfRange)
    );
}

#[test]
fn instant_fields_and_construction() {
    let t = Instant::from_civil(civil(2024, 1, 1, 23, 0, 0), 3600).unwrap();
    assert_eq!(t.secs, 1_704_150_000 - 3600);
    assert_eq!(t.civil(), Some(civil(2024, 1, 1, 23, 0, 0)));
    assert_eq!(Instant::from_civil(civil(2023, 2, 29, 0, 0, 0), 0), None);
}

use chrono::{NaiveDate, NaiveDateTime};
use libswe::time::{julday, julday_moment, utc_moment_of, UtcMoment};

fn as_days(whole: i64, hour: u32) -> f64 {
    whole as f64 - 0.5 + hour as f64 / 24.0
}

#[test]
fn golden_reference_date() {
    let d = julday_moment(UtcMoment { year: 1991, month: 10, day: 13, hour: 20 });
    assert_eq!(d.whole, 2448543);
    assert_eq!(d.hour, 20);
    let jd = as_days(d.whole, d.hour);
    assert!((jd - 2448543.3333333335).abs() < 1e-9);
}

#[test]
fn epoch_j2000() {
    let d = julday_moment(UtcMoment { year: 2000, month: 1, day: 1, hour: 12 });
    assert_eq!(d.whole, 2451545);
    assert_eq!(as_days(d.whole, d.hour), 2451545.0);
}

#[test]
fn gregorian_reform_day() {
    let d = julday_moment(UtcMoment { year: 1582, month: 10, day: 15, hour: 0 });
    assert_eq!(d.whole, 2299161);
    assert_eq!(as_days(d.whole, d.hour), 2299160.5);
}

#[test]
fn proleptic_negative_year() {
    let d = julday_moment(UtcMoment { year: -4712, month: 1, day: 1, hour: 12 });
    assert_eq!(d.whole, 38);
    assert_eq!(as_days(d.whole, d.hour), 38.0);
}

#[test]
fn january_and_february_borrow_from_the_previous_year() {
    let d = julday_moment(UtcMoment { year: 2000, month: 2, day: 29, hour: 0 });
    assert_eq!(d.whole, 2451604);
    assert_eq!(as_days(d.whole, d.hour), 2451603.5);
}

#[test]
fn chrono_timestamp_converts_like_its_fields() {
    let dt: NaiveDateTime = NaiveDate::from_ymd_opt(1991, 10, 13)
        .unwrap()
        .and_hms_opt(20, 0, 0)
        .unwrap();
    let m = utc_moment_of(&dt);
    assert_eq!((m.year, m.month, m.day, m.hour), (1991, 10, 13, 20));
    let d = julday(&dt);
    assert_eq!(d.whole, 2448543);
    assert_eq!(d.hour, 20);
}

#[test]
fn sub_hour_precision_is_truncated() {
    let dt: NaiveDateTime = NaiveDate::from_ymd_opt(1991, 10, 13)
        .unwrap()
        .and_hms_opt(20, 59, 59)
        .unwrap();
    let d = julday(&dt);
    assert_eq!(d.hour, 20);
}

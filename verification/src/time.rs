//! Conversion of a UTC calendar timestamp to the continuous day-count the
//! foreign surface uses as its time axis.
//!
//! The conversion is the surface's own Gregorian-calendar Julian-day
//! formula, computed here exactly over integers. A day-count is carried as
//! a whole part and an hour: its value in days is `whole - 1/2 + hour/24`,
//! so nothing is lost to rounding until a caller turns it into the
//! double-precision number the surface takes. Sub-hour precision is
//! truncated, as the calling convention has always done.

use vstd::arithmetic::div_mod::{
    lemma_fundamental_div_mod, lemma_fundamental_div_mod_converse,
    lemma_mod_division_less_than_divisor,
};
use vstd::prelude::*;

verus! {

/// A calendar timestamp, explicitly UTC, reduced to the plain fields the
/// conversion reads. Minutes and seconds below the hour are not carried.
#[derive(Copy, Clone, PartialEq, Eq, Structural, Debug)]
pub struct UtcMoment {
    pub year: i32,
    pub month: u32,
    pub day: u32,
    pub hour: u32,
}

impl UtcMoment {
    /// The field ranges of a calendar timestamp.
    pub open spec fn wf(self) -> bool {
        1 <= self.month <= 12 && 1 <= self.day <= 31 && self.hour < 24
    }
}

/// A point on the foreign surface's time axis: `whole - 1/2 + hour/24`
/// days, kept exact. `whole` is the Julian day number of the calendar
/// day's noon.
#[derive(Copy, Clone, PartialEq, Eq, Structural, Debug)]
pub struct DayCount {
    pub whole: i64,
    pub hour: u32,
}

/// The whole part of the Gregorian Julian-day formula: the Julian day
/// number at the given date's noon. Division is Euclidean, which on the
/// positive divisors here is the floor the formula asks for.
pub open spec fn julian_day_whole(year: int, month: int, day: int) -> int {
    let u = if month < 3 {
        year - 1
    } else {
        year
    };
    let u0 = u + 4712;
    let u1 = if month + 1 < 4 {
        month + 13
    } else {
        month + 1
    };
    let a = if u < 0 {
        -u
    } else {
        u
    };
    let cent = a / 100 - a / 400;
    let u2 = if u < 0 {
        -cent
    } else {
        cent
    };
    let g = (u0 * 1461) / 4 + (306 * u1) / 10 + day - 63 - u2 + 2;
    if u < 0 && a % 100 == 0 && a % 400 != 0 {
        g - 1
    } else {
        g
    }
}

/// Floor division by a small positive divisor.
fn floor_div(a: i64, b: i64) -> (q: i64)
    requires
        0 < b <= 10000,
        -5_000_000_000_000 <= a <= 5_000_000_000_000,
    ensures
        q == a as int / b as int,
{
    if a >= 0 {
        let q0: u64 = (a as u64) / (b as u64);
        q0 as i64
    } else {
        let n: u64 = (-a) as u64;
        let bu: u64 = b as u64;
        let q1: u64 = (n + bu - 1) / bu;
        proof {
            let ai = a as int;
            let bi = b as int;
            let ni = n as int;
            lemma_fundamental_div_mod(ni, bi);
            lemma_mod_division_less_than_divisor(ni, bi);
            let qi = ni / bi;
            let ri = ni % bi;
            if ri == 0 {
                assert(ni + bi - 1 == qi * bi + (bi - 1)) by (nonlinear_arith)
                    requires
                        ni == bi * qi + ri,
                        ri == 0,
                ;
                lemma_fundamental_div_mod_converse(ni + bi - 1, bi, qi, bi - 1);
                assert(ai == (-qi) * bi + 0) by (nonlinear_arith)
                    requires
                        ni == bi * qi + ri,
                        ri == 0,
                        ai == -ni,
                ;
                lemma_fundamental_div_mod_converse(ai, bi, -qi, 0);
            } else {
                assert(ni + bi - 1 == (qi + 1) * bi + (ri - 1)) by (nonlinear_arith)
                    requires
                        ni == bi * qi + ri,
                ;
                lemma_fundamental_div_mod_converse(ni + bi - 1, bi, qi + 1, ri - 1);
                assert(ai == (-(qi + 1)) * bi + (bi - ri)) by (nonlinear_arith)
                    requires
                        ni == bi * qi + ri,
                        ai == -ni,
                ;
                lemma_fundamental_div_mod_converse(ai, bi, -(qi + 1), bi - ri);
            }
        }
        -(q1 as i64)
    }
}

/// The day-count of a calendar timestamp: the Gregorian Julian-day formula,
/// exact. `whole` is the formula's integer part; the hour rides along
/// unchanged.
pub fn julday_moment(m: UtcMoment) -> (r: DayCount)
    requires
        m.wf(),
    ensures
        r.whole == julian_day_whole(m.year as int, m.month as int, m.day as int),
        r.hour == m.hour,
        r.hour < 24,
{
    let year: i64 = m.year as i64;
    let u: i64 = if m.month < 3 {
        year - 1
    } else {
        year
    };
    let u0: i64 = u + 4712;
    let u1: i64 = if m.month + 1 < 4 {
        (m.month as i64) + 13
    } else {
        (m.month as i64) + 1
    };
    let b1: i64 = floor_div(u0 * 1461, 4);
    let b2: i64 = ((306u64 * (u1 as u64)) / 10) as i64;
    let a: i64 = if u < 0 {
        -u
    } else {
        u
    };
    let au: u64 = a as u64;
    let q100: i64 = (au / 100) as i64;
    let q400: i64 = (au / 400) as i64;
    let cent: i64 = q100 - q400;
    let u2: i64 = if u < 0 {
        -cent
    } else {
        cent
    };
    let g: i64 = b1 + b2 + (m.day as i64) - 63 - u2 + 2;
    let whole: i64 = if u < 0 && au % 100 == 0 && au % 400 != 0 {
        g - 1
    } else {
        g
    };
    DayCount { whole, hour: m.hour }
}

#[verifier::external_type_specification]
#[verifier::external_body]
pub struct ExNaiveDateTime(chrono::NaiveDateTime);

/// Relies on chrono's `Datelike::year` for `NaiveDateTime`: the calendar
/// year of the timestamp.
#[verifier::external_body]
fn dt_year(dt: &chrono::NaiveDateTime) -> i32 {
    chrono::Datelike::year(dt)
}

/// Relies on chrono's `Datelike::month`: the month number, from 1 to 12.
#[verifier::external_body]
fn dt_month(dt: &chrono::NaiveDateTime) -> (r: u32)
    ensures
        1 <= r <= 12,
{
    chrono::Datelike::month(dt)
}

/// Relies on chrono's `Datelike::day`: the day of month, from 1 to 31.
#[verifier::external_body]
fn dt_day(dt: &chrono::NaiveDateTime) -> (r: u32)
    ensures
        1 <= r <= 31,
{
    chrono::Datelike::day(dt)
}

/// Relies on chrono's `Timelike::hour`: the hour number, from 0 to 23.
#[verifier::external_body]
fn dt_hour(dt: &chrono::NaiveDateTime) -> (r: u32)
    ensures
        r < 24,
{
    chrono::Timelike::hour(dt)
}

/// Read the calendar fields of a timestamp into the library's own
/// plain-value form. The timestamp must already be UTC — a naive one, so
/// that no zone can sneak in. Minutes and seconds are deliberately not
/// read.
pub fn utc_moment_of(dt: &chrono::NaiveDateTime) -> (m: UtcMoment)
    ensures
        m.wf(),
{
    UtcMoment { year: dt_year(dt), month: dt_month(dt), day: dt_day(dt), hour: dt_hour(dt) }
}

/// The day-count of a UTC timestamp, on the Gregorian calendar: the
/// timestamp's calendar fields put through the exact Julian-day formula of
/// `julday_moment`.
pub fn julday(dt: &chrono::NaiveDateTime) -> (r: DayCount)
    ensures
        r.hour < 24,
        exists|m: UtcMoment|
            m.wf() && r.hour == m.hour && r.whole == julian_day_whole(
                m.year as int,
                m.month as int,
                m.day as int,
            ),
{
    let m = utc_moment_of(dt);
    let r = julday_moment(m);
    proof {
        assert(m.wf() && r.hour == m.hour && r.whole == julian_day_whole(
            m.year as int,
            m.month as int,
            m.day as int,
        ));
    }
    r
}

} // verus!

//! Closed-form proleptic civil-calendar conversion between day
//! counts since the Unix epoch and year/month/day triples, by
//! era / year-of-era / day-of-year decomposition.

use vstd::prelude::*;
use vstd::arithmetic::div_mod::{
    lemma_fundamental_div_mod,
    lemma_fundamental_div_mod_converse_div,
    lemma_fundamental_div_mod_converse_mod,
    lemma_mod_division_less_than_divisor,
    lemma_div_is_ordered,
};

verus! {

/// Day of era: where a fixed era is 146097 days (400 civil years).
pub open spec fn doe_of(days: int) -> int {
    (days + 719468) % 146097
}

/// Era index of a day count.
pub open spec fn era_of(days: int) -> int {
    (days + 719468) / 146097
}

/// Year of era, in 0..=399.
pub open spec fn yoe_of(doe: int) -> int {
    (doe - doe / 1460 + doe / 36524 - doe / 146096) / 365
}

/// Day of year, counted from March 1st, in 0..=365.
pub open spec fn doy_of(doe: int) -> int {
    doe - (365 * yoe_of(doe) + yoe_of(doe) / 4 - yoe_of(doe) / 100)
}

/// Month counted from March (0 = March, ..., 11 = February).
pub open spec fn mp_of(doe: int) -> int {
    (5 * doy_of(doe) + 2) / 153
}

/// Day of month, in 1..=31.
pub open spec fn dom_of(doe: int) -> int {
    doy_of(doe) - (153 * mp_of(doe) + 2) / 5 + 1
}

/// Civil month of a day of era, in 1..=12.
pub open spec fn month_of(doe: int) -> int {
    if mp_of(doe) < 10 {
        mp_of(doe) + 3
    } else {
        mp_of(doe) - 9
    }
}

/// The (year, month, day) triple for a day count since the epoch.
pub open spec fn civil_from_days(days: int) -> (int, int, int) {
    let doe = doe_of(days);
    let y0 = yoe_of(doe) + era_of(days) * 400;
    let m = month_of(doe);
    (if m <= 2 { y0 + 1 } else { y0 }, m, dom_of(doe))
}

/// The inverse direction: the day count of a (year, month, day)
/// civil date.
pub open spec fn days_from_civil(y: int, m: int, d: int) -> int {
    let ys = if m <= 2 { y - 1 } else { y };
    let era = ys / 400;
    let yoe = ys - era * 400;
    let mp = if m > 2 { m - 3 } else { m + 9 };
    let doy = (153 * mp + 2) / 5 + d - 1;
    let doe = yoe * 365 + yoe / 4 - yoe / 100 + doy;
    era * 146097 + doe - 719468
}

/// Ranges of the intermediate quantities of the civil-calendar
/// decomposition, for any day of era.
#[verifier::rlimit(100)]
pub proof fn lemma_civil_parts(doe: int)
    requires
        0 <= doe <= 146096,
    ensures
        0 <= yoe_of(doe) <= 399,
        0 <= doy_of(doe) <= 365,
        0 <= mp_of(doe) <= 11,
        1 <= dom_of(doe) <= 31,
        365 * yoe_of(doe) + yoe_of(doe) / 4 - yoe_of(doe) / 100 <= doe,
{
    let q1 = doe / 1460;
    let q2 = doe / 36524;
    let q3 = doe / 146096;
    lemma_fundamental_div_mod(doe, 1460);
    lemma_mod_division_less_than_divisor(doe, 1460);
    lemma_fundamental_div_mod(doe, 36524);
    lemma_mod_division_less_than_divisor(doe, 36524);
    lemma_fundamental_div_mod(doe, 146096);
    lemma_mod_division_less_than_divisor(doe, 146096);
    let f = doe - q1 + q2 - q3;
    let yoe = yoe_of(doe);
    lemma_fundamental_div_mod(f, 365);
    lemma_mod_division_less_than_divisor(f, 365);
    assert(0 <= yoe <= 399);
    lemma_fundamental_div_mod(yoe, 4);
    lemma_mod_division_less_than_divisor(yoe, 4);
    lemma_fundamental_div_mod(yoe, 100);
    lemma_mod_division_less_than_divisor(yoe, 100);
    let doy = doy_of(doe);
    assert(0 <= doy <= 365);
    let mp = mp_of(doe);
    lemma_fundamental_div_mod(5 * doy + 2, 153);
    lemma_mod_division_less_than_divisor(5 * doy + 2, 153);
    assert(0 <= mp <= 11);
    lemma_fundamental_div_mod(153 * mp + 2, 5);
    lemma_mod_division_less_than_divisor(153 * mp + 2, 5);
    assert(1 <= dom_of(doe) <= 31);
}

/// Convert days since the Unix epoch to a (year, month, day) civil
/// date. The bound on `days` keeps the year within a 32-bit value.
pub fn days_to_ymd(days: i64) -> (r: (i32, u32, u32))
    requires
        -365_000_000_000 <= days <= 365_000_000_000,
    ensures
        r.0 as int == civil_from_days(days as int).0,
        r.1 as int == civil_from_days(days as int).1,
        r.2 as int == civil_from_days(days as int).2,
        1 <= r.1 <= 12,
        1 <= r.2 <= 31,
{
    let z: i64 = days + 719468;
    let era: i64 = if z >= 0 {
        ((z as u64) / 146097) as i64
    } else {
        let zn: u64 = (-z) as u64;
        -(((zn + 146096) / 146097) as i64)
    };
    proof {
        if z < 0 {
            let zn = (-z) as int;
            let q = (zn + 146096) / 146097;
            lemma_fundamental_div_mod(zn + 146096, 146097);
            lemma_mod_division_less_than_divisor(zn + 146096, 146097);
            lemma_fundamental_div_mod_converse_div(
                -zn,
                146097,
                -q,
                146096 - ((zn + 146096) % 146097),
            );
        }
        assert(era == era_of(days as int));
        lemma_fundamental_div_mod(z as int, 146097);
        lemma_mod_division_less_than_divisor(z as int, 146097);
    }
    let doe64: i64 = z - era * 146097;
    proof {
        assert(doe64 == doe_of(days as int));
        assert(0 <= doe64 <= 146096);
        lemma_civil_parts(doe64 as int);
    }
    let doe: u32 = doe64 as u32;
    let yoe: u32 = (doe - doe / 1460 + doe / 36524 - doe / 146096) / 365;
    proof {
        assert(yoe == yoe_of(doe as int));
    }
    let doy: u32 = doe - (365 * yoe + yoe / 4 - yoe / 100);
    let mp: u32 = (5 * doy + 2) / 153;
    let d: u32 = doy - (153 * mp + 2) / 5 + 1;
    let m: u32 = if mp < 10 { mp + 3 } else { mp - 9 };
    let y64: i64 = (yoe as i64) + era * 400 + (if m <= 2 { 1i64 } else { 0i64 });
    proof {
        lemma_div_is_ordered(z as int, 365_000_719_468, 146097);
        lemma_div_is_ordered(-365_000_719_468, z as int, 146097);
        assert(-2_498_361 <= era <= 2_498_361);
    }
    (y64 as i32, m, d)
}

/// The civil-calendar conversion is inverted exactly by the
/// closed-form day count of the resulting date, and always yields a
/// month in 1..=12 and a day in 1..=31.
pub proof fn lemma_civil_round_trip(days: int)
    ensures
        ({
            let (y, m, d) = civil_from_days(days);
            days_from_civil(y, m, d) == days && 1 <= m <= 12 && 1 <= d <= 31
        }),
{
    let z = days + 719468;
    lemma_fundamental_div_mod(z, 146097);
    lemma_mod_division_less_than_divisor(z, 146097);
    let doe = doe_of(days);
    let era = era_of(days);
    lemma_civil_parts(doe);
    let yoe = yoe_of(doe);
    let doy = doy_of(doe);
    let mp = mp_of(doe);
    let m = month_of(doe);
    let d = dom_of(doe);
    let y0 = yoe + era * 400;
    let y = if m <= 2 {
        y0 + 1
    } else {
        y0
    };
    let ys = if m <= 2 {
        y - 1
    } else {
        y
    };
    assert(ys == y0);
    lemma_fundamental_div_mod_converse_div(y0, 400, era, yoe);
    lemma_fundamental_div_mod_converse_mod(y0, 400, era, yoe);
    assert(ys / 400 == era);
    let mp2 = if m > 2 {
        m - 3
    } else {
        m + 9
    };
    assert(mp2 == mp);
    assert((153 * mp + 2) / 5 + d - 1 == doy);
    assert(yoe * 365 + yoe / 4 - yoe / 100 + doy == doe);
    assert(era * 146097 + doe == z);
}

} // verus!

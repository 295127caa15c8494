//! Timestamp formatting: human-relative ages ("2 hours ago") and
//! absolute local-time strings (`YYYY-MM-DD HH:MM:SS`), the latter
//! through a closed-form civil-calendar conversion on day counts.

use vstd::prelude::*;
use vstd::string::StringExecFns;
use vstd::arithmetic::div_mod::{
    lemma_fundamental_div_mod,
    lemma_fundamental_div_mod_converse_div,
    lemma_fundamental_div_mod_converse_mod,
    lemma_mod_division_less_than_divisor,
};
use crate::strnum::{dec_rep, u64_to_dec, u64_pad2, i64_pad4, pad2_rep, pad4_signed_rep};
use crate::calendar::{civil_from_days, days_to_ymd};

verus! {

/// The unit label for a magnitude: singular exactly at 1, plural
/// otherwise.
pub open spec fn unit_label(n: int, singular: Seq<char>) -> Seq<char> {
    if n == 1 {
        singular
    } else {
        singular + "s"@
    }
}

/// One relative-age phrase: the magnitude, a space, the unit label,
/// and " ago".
pub open spec fn age_phrase(n: int, singular: Seq<char>) -> Seq<char> {
    dec_rep(n as nat) + " "@ + unit_label(n, singular) + " ago"@
}

/// The relative-age string for an elapsed-seconds value: the largest
/// applicable unit among seconds (<60s), minutes (<60m), hours
/// (<24h), days (<7d), weeks (<4w), months (<12mo of 30 days), and
/// 365-day years; negative elapsed time reads "in the future".
pub open spec fn rel_time_rep(secs_ago: int) -> Seq<char> {
    if secs_ago < 0 {
        "in the future"@
    } else if secs_ago < 60 {
        age_phrase(secs_ago, "second"@)
    } else {
        let mins = secs_ago / 60;
        if mins < 60 {
            age_phrase(mins, "minute"@)
        } else {
            let hours = mins / 60;
            if hours < 24 {
                age_phrase(hours, "hour"@)
            } else {
                let days = hours / 24;
                if days < 7 {
                    age_phrase(days, "day"@)
                } else {
                    let weeks = days / 7;
                    if weeks < 4 {
                        age_phrase(weeks, "week"@)
                    } else {
                        let months = days / 30;
                        if months < 12 {
                            age_phrase(months, "month"@)
                        } else {
                            age_phrase(days / 365, "year"@)
                        }
                    }
                }
            }
        }
    }
}

fn build_age_phrase(n: u64, singular: &str) -> (r: String)
    ensures
        r@ == age_phrase(n as int, singular@),
{
    let mut s = u64_to_dec(n);
    s.append(" ");
    s.append(singular);
    if n != 1 {
        s.append("s");
    }
    s.append(" ago");
    proof {
        assert(s@ =~= age_phrase(n as int, singular@));
    }
    s
}

/// Format a duration in seconds as a relative age, for example
/// "2 hours ago".
pub fn format_relative_time(secs_ago: i64) -> (r: String)
    ensures
        r@ == rel_time_rep(secs_ago as int),
{
    if secs_ago < 0 {
        return "in the future".to_owned();
    }
    let secs = secs_ago as u64;
    if secs < 60 {
        return build_age_phrase(secs, "second");
    }
    let mins = secs / 60;
    if mins < 60 {
        return build_age_phrase(mins, "minute");
    }
    let hours = mins / 60;
    if hours < 24 {
        return build_age_phrase(hours, "hour");
    }
    let days = hours / 24;
    if days < 7 {
        return build_age_phrase(days, "day");
    }
    let weeks = days / 7;
    if weeks < 4 {
        return build_age_phrase(weeks, "week");
    }
    let months = days / 30;
    if months < 12 {
        return build_age_phrase(months, "month");
    }
    build_age_phrase(days / 365, "year")
}

/// Division truncating toward zero, as machine division does, for a
/// positive divisor.
pub open spec fn tdiv(a: int, b: int) -> int {
    if a >= 0 {
        a / b
    } else {
        -((-a) / b)
    }
}

/// The absolute local-time string for an epoch-seconds value and a
/// timezone offset in minutes: zero-padded `YYYY-MM-DD HH:MM:SS`.
/// The day count truncates toward zero while the time of day uses
/// the nonnegative remainder, as the backing implementation does.
pub open spec fn git_time_rep(secs: int, offset_minutes: int) -> Seq<char> {
    let local = secs + offset_minutes * 60;
    let day_count = tdiv(local, 86400);
    let tod = local % 86400;
    let c = civil_from_days(day_count);
    pad4_signed_rep(c.0) + "-"@ + pad2_rep(c.1 as nat) + "-"@ + pad2_rep(c.2 as nat) + " "@
        + pad2_rep((tod / 3600) as nat) + ":"@ + pad2_rep(((tod % 3600) / 60) as nat) + ":"@
        + pad2_rep((tod % 60) as nat)
}

/// Format an epoch-seconds timestamp with its timezone offset as
/// `YYYY-MM-DD HH:MM:SS` local time. The bound on the shifted value
/// keeps the civil year within a 32-bit value.
pub fn format_git_time(seconds: i64, offset_minutes: i32) -> (r: String)
    requires
        -31_536_000_000_000_000 <= seconds + offset_minutes * 60 <= 31_536_000_000_000_000,
    ensures
        r@ == git_time_rep(seconds as int, offset_minutes as int),
{
    let local: i64 = seconds + (offset_minutes as i64) * 60;
    let day_count: i64 = if local >= 0 {
        ((local as u64) / 86400) as i64
    } else {
        -((((-local) as u64) / 86400) as i64)
    };
    proof {
        assert(day_count == tdiv(local as int, 86400));
        assert(-365_000_000_000 <= day_count <= 365_000_000_000);
    }
    let tod: u64 = if local >= 0 {
        (local as u64) % 86400
    } else {
        let r = ((-local) as u64) % 86400;
        if r == 0 {
            0
        } else {
            86400 - r
        }
    };
    proof {
        if local >= 0 {
            assert(tod == local as int % 86400);
        } else {
            let a = (-local) as int;
            lemma_fundamental_div_mod(a, 86400);
            lemma_mod_division_less_than_divisor(a, 86400);
            let qa = a / 86400;
            let ra = a % 86400;
            if ra == 0 {
                lemma_fundamental_div_mod_converse_mod(-a, 86400, -qa, 0);
            } else {
                lemma_fundamental_div_mod_converse_mod(-a, 86400, -qa - 1, 86400 - ra);
            }
            assert(tod == local as int % 86400);
        }
        lemma_mod_division_less_than_divisor(local as int, 86400);
        assert(0 <= tod < 86400);
    }
    let (y, mo, da) = days_to_ymd(day_count);
    let hh: u64 = tod / 3600;
    let mi: u64 = (tod % 3600) / 60;
    let ss: u64 = tod % 60;
    let mut s = i64_pad4(y as i64);
    s.append("-");
    let p = u64_pad2(mo as u64);
    s.append(p.as_str());
    s.append("-");
    let p = u64_pad2(da as u64);
    s.append(p.as_str());
    s.append(" ");
    let p = u64_pad2(hh);
    s.append(p.as_str());
    s.append(":");
    let p = u64_pad2(mi);
    s.append(p.as_str());
    s.append(":");
    let p = u64_pad2(ss);
    s.append(p.as_str());
    proof {
        assert(s@ =~= git_time_rep(seconds as int, offset_minutes as int));
    }
    s
}

/// Absolute formatting always yields a 19-character string with the
/// separators at fixed offsets: `-` at 4 and 7, a space at 10, `:`
/// at 13 and 16. This holds whenever the civil year has four digits.
pub proof fn lemma_git_time_shape(secs: int, offset_minutes: int)
    requires
        0 <= civil_from_days(tdiv(secs + offset_minutes * 60, 86400)).0 <= 9999,
    ensures
        ({
            let s = git_time_rep(secs, offset_minutes);
            s.len() == 19 && s[4] == '-' && s[7] == '-' && s[10] == ' ' && s[13] == ':' && s[16]
                == ':'
        }),
{
    let local = secs + offset_minutes * 60;
    let day_count = tdiv(local, 86400);
    let tod = local % 86400;
    let c = civil_from_days(day_count);
    crate::calendar::lemma_civil_round_trip(day_count);
    lemma_mod_division_less_than_divisor(local, 86400);
    lemma_mod_division_less_than_divisor(tod, 3600);
    lemma_mod_division_less_than_divisor(tod, 60);
    assert(0 <= tod < 86400);
    assert(tod / 3600 <= 23) by {
        lemma_fundamental_div_mod(tod, 3600);
        lemma_mod_division_less_than_divisor(tod, 3600);
    }
    assert((tod % 3600) / 60 <= 59) by {
        lemma_fundamental_div_mod(tod % 3600, 60);
        lemma_mod_division_less_than_divisor(tod % 3600, 60);
    }
    crate::strnum::lemma_dec_rep_len(c.0 as nat);
    crate::strnum::lemma_dec_rep_len(c.1 as nat);
    crate::strnum::lemma_dec_rep_len(c.2 as nat);
    crate::strnum::lemma_dec_rep_len((tod / 3600) as nat);
    crate::strnum::lemma_dec_rep_len(((tod % 3600) / 60) as nat);
    crate::strnum::lemma_dec_rep_len((tod % 60) as nat);
    assert(pad4_signed_rep(c.0).len() == 4);
    assert(pad2_rep(c.1 as nat).len() == 2);
    assert(pad2_rep(c.2 as nat).len() == 2);
    assert(pad2_rep((tod / 3600) as nat).len() == 2);
    assert(pad2_rep(((tod % 3600) / 60) as nat).len() == 2);
    assert(pad2_rep((tod % 60) as nat).len() == 2);
    reveal_strlit("-");
    reveal_strlit(" ");
    reveal_strlit(":");
}

/// The unit label never pluralizes at a magnitude of exactly 1, and
/// always does otherwise.
pub proof fn lemma_age_phrase_singular(n: int, singular: Seq<char>)
    ensures
        n == 1 ==> age_phrase(n, singular) == dec_rep(1) + " "@ + singular + " ago"@,
        n != 1 ==> age_phrase(n, singular) == dec_rep(n as nat) + " "@ + singular + "s"@
            + " ago"@,
{
}

} // verus!

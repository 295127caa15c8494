//! Decimal rendering of integers as character sequences, with the
//! zero-padding used by timestamp formatting.

use vstd::prelude::*;
use vstd::string::StringExecFns;

verus! {

/// The decimal digit character for a value in 0..=9.
pub open spec fn digit_char(d: int) -> char {
    if d == 0 {
        '0'
    } else if d == 1 {
        '1'
    } else if d == 2 {
        '2'
    } else if d == 3 {
        '3'
    } else if d == 4 {
        '4'
    } else if d == 5 {
        '5'
    } else if d == 6 {
        '6'
    } else if d == 7 {
        '7'
    } else if d == 8 {
        '8'
    } else {
        '9'
    }
}

/// Whether every character of `s` is a lowercase hexadecimal digit.
pub open spec fn all_lower_hex(s: Seq<char>) -> bool {
    forall|i: int| 0 <= i < s.len() ==> ('0' <= #[trigger] s[i] <= '9' || 'a' <= s[i] <= 'f')
}

/// The decimal representation of a nonnegative integer, most
/// significant digit first, with no leading zeros (except for 0
/// itself).
pub open spec fn dec_rep(n: nat) -> Seq<char>
    decreases n,
{
    if n < 10 {
        seq![digit_char(n as int)]
    } else {
        dec_rep(n / 10) + seq![digit_char((n % 10) as int)]
    }
}

fn digit_str(d: u64) -> (r: &'static str)
    requires
        d < 10,
    ensures
        r@ == seq![digit_char(d as int)],
{
    let r: &'static str = match d {
        0 => "0",
        1 => "1",
        2 => "2",
        3 => "3",
        4 => "4",
        5 => "5",
        6 => "6",
        7 => "7",
        8 => "8",
        _ => "9",
    };
    proof {
        reveal_strlit("0");
        reveal_strlit("1");
        reveal_strlit("2");
        reveal_strlit("3");
        reveal_strlit("4");
        reveal_strlit("5");
        reveal_strlit("6");
        reveal_strlit("7");
        reveal_strlit("8");
        reveal_strlit("9");
        assert(r@ =~= seq![digit_char(d as int)]);
    }
    r
}

/// Render a `u64` in decimal.
pub fn u64_to_dec(n: u64) -> (r: String)
    ensures
        r@ == dec_rep(n as nat),
    decreases n,
{
    if n < 10 {
        digit_str(n).to_owned()
    } else {
        let mut s = u64_to_dec(n / 10);
        s.append(digit_str(n % 10));
        s
    }
}

/// The decimal representation has exactly as many digits as the
/// magnitude calls for.
pub proof fn lemma_dec_rep_len(n: nat)
    ensures
        n < 10 ==> dec_rep(n).len() == 1,
        10 <= n < 100 ==> dec_rep(n).len() == 2,
        100 <= n < 1000 ==> dec_rep(n).len() == 3,
        1000 <= n < 10000 ==> dec_rep(n).len() == 4,
    decreases n,
{
    if n >= 10 {
        lemma_dec_rep_len(n / 10);
    }
}

/// Decimal, zero-padded on the left to at least two digits.
pub open spec fn pad2_rep(n: nat) -> Seq<char> {
    if n < 10 {
        seq!['0'] + dec_rep(n)
    } else {
        dec_rep(n)
    }
}

/// Decimal, zero-padded on the left to at least three digits.
pub open spec fn pad3_rep(n: nat) -> Seq<char> {
    if n < 10 {
        seq!['0', '0'] + dec_rep(n)
    } else if n < 100 {
        seq!['0'] + dec_rep(n)
    } else {
        dec_rep(n)
    }
}

/// Decimal, zero-padded on the left to at least four digits.
pub open spec fn pad4_rep(n: nat) -> Seq<char> {
    if n < 10 {
        seq!['0', '0', '0'] + dec_rep(n)
    } else if n < 100 {
        seq!['0', '0'] + dec_rep(n)
    } else if n < 1000 {
        seq!['0'] + dec_rep(n)
    } else {
        dec_rep(n)
    }
}

/// A signed value padded to a total width of at least four, the sign
/// counting toward the width, as `{:04}` formatting does.
pub open spec fn pad4_signed_rep(n: int) -> Seq<char> {
    if n < 0 {
        seq!['-'] + pad3_rep((-n) as nat)
    } else {
        pad4_rep(n as nat)
    }
}

pub fn u64_pad2(n: u64) -> (r: String)
    ensures
        r@ == pad2_rep(n as nat),
{
    let d = u64_to_dec(n);
    if n < 10 {
        let mut s = "0".to_owned();
        s.append(d.as_str());
        proof {
            reveal_strlit("0");
            assert(s@ =~= pad2_rep(n as nat));
        }
        s
    } else {
        d
    }
}

fn u64_pad3(n: u64) -> (r: String)
    ensures
        r@ == pad3_rep(n as nat),
{
    let d = u64_to_dec(n);
    let prefix: &'static str = if n < 10 {
        "00"
    } else if n < 100 {
        "0"
    } else {
        ""
    };
    let mut s = prefix.to_owned();
    s.append(d.as_str());
    proof {
        reveal_strlit("00");
        reveal_strlit("0");
        reveal_strlit("");
        assert(s@ =~= pad3_rep(n as nat));
    }
    s
}

fn u64_pad4(n: u64) -> (r: String)
    ensures
        r@ == pad4_rep(n as nat),
{
    let d = u64_to_dec(n);
    let prefix: &'static str = if n < 10 {
        "000"
    } else if n < 100 {
        "00"
    } else if n < 1000 {
        "0"
    } else {
        ""
    };
    let mut s = prefix.to_owned();
    s.append(d.as_str());
    proof {
        reveal_strlit("000");
        reveal_strlit("00");
        reveal_strlit("0");
        reveal_strlit("");
        assert(s@ =~= pad4_rep(n as nat));
    }
    s
}

/// Render a signed value as `{:04}` formatting would: zero-padded to
/// a total width of four, the sign counting toward the width.
pub fn i64_pad4(n: i64) -> (r: String)
    requires
        i64::MIN < n,
    ensures
        r@ == pad4_signed_rep(n as int),
{
    if n < 0 {
        let mut s = "-".to_owned();
        let d = u64_pad3((-n) as u64);
        s.append(d.as_str());
        proof {
            reveal_strlit("-");
            assert(s@ =~= pad4_signed_rep(n as int));
        }
        s
    } else {
        u64_pad4(n as u64)
    }
}

} // verus!

//! Pure rendering computations for the now-playing panel.
//!
//! The panel's text and its progress gauge are computed here from plain
//! values; the terminal widgets only display what these functions return.
//! Elapsed and total time are shown as `MM:SS` with minutes zero-padded to
//! two digits but never truncated, so a track of 100 minutes or more shows a
//! large minute count rather than an hour field. The gauge ratio is held in
//! integer permille, so a missing or zero total duration yields an empty
//! gauge rather than an undefined quotient.

use vstd::arithmetic::div_mod::lemma_div_decreases;
use vstd::prelude::*;

verus! {

/// The decimal digit character for `d`.
pub open spec fn digit_char(d: int) -> char {
    if d == 0 {
        '0'
    } else if d == 1 {
        '1'
    } else if d == 2 {
        '2'
    } else if d == 3 {
        '3'
    } else if d == 4 {
        '4'
    } else if d == 5 {
        '5'
    } else if d == 6 {
        '6'
    } else if d == 7 {
        '7'
    } else if d == 8 {
        '8'
    } else {
        '9'
    }
}

/// The decimal representation of `n`, without leading zeros.
pub open spec fn spec_decimal(n: int) -> Seq<char>
    decreases n,
{
    if n < 10 {
        seq![digit_char(n)]
    } else {
        spec_decimal(n / 10) + seq![digit_char(n % 10)]
    }
}

/// The decimal representation of `n`, zero-padded to at least two digits.
pub open spec fn spec_pad2(n: int) -> Seq<char> {
    if n < 10 {
        seq!['0'] + spec_decimal(n)
    } else {
        spec_decimal(n)
    }
}

/// `total_secs` rendered as `MM:SS`: whole minutes, then the leftover
/// seconds, each zero-padded to two digits.
pub open spec fn spec_mm_ss(total_secs: int) -> Seq<char> {
    spec_pad2(total_secs / 60) + seq![':'] + spec_pad2(total_secs % 60)
}

/// The filled share of the progress gauge, in permille of its width,
/// clamped to `[0, 1000]`. A zero total duration yields zero.
pub open spec fn spec_ratio_permille(position_millis: int, total_millis: int) -> int {
    if total_millis <= 0 {
        0
    } else if position_millis * 1000 / total_millis > 1000 {
        1000
    } else {
        position_millis * 1000 / total_millis
    }
}

/// The one-character string for the decimal digit `d`.
fn digit_to_str(d: u64) -> (s: &'static str)
    requires
        d < 10,
    ensures
        s@ =~= seq![digit_char(d as int)],
{
    proof {
        reveal_strlit("0");
        reveal_strlit("1");
        reveal_strlit("2");
        reveal_strlit("3");
        reveal_strlit("4");
        reveal_strlit("5");
        reveal_strlit("6");
        reveal_strlit("7");
        reveal_strlit("8");
        reveal_strlit("9");
    }
    match d {
        0 => "0",
        1 => "1",
        2 => "2",
        3 => "3",
        4 => "4",
        5 => "5",
        6 => "6",
        7 => "7",
        8 => "8",
        _ => "9",
    }
}

/// `n` written in decimal, without leading zeros.
pub fn u64_to_string(n: u64) -> (s: String)
    ensures
        s@ == spec_decimal(n as int),
    decreases n,
{
    if n < 10 {
        String::from_str(digit_to_str(n))
    } else {
        proof {
            lemma_div_decreases(n as int, 10);
        }
        let mut front = u64_to_string(n / 10);
        front.append(digit_to_str(n % 10));
        proof {
            assert(front@ =~= spec_decimal(n as int));
        }
        front
    }
}

/// `n` written in decimal, zero-padded to at least two digits.
pub fn pad2_string(n: u64) -> (s: String)
    ensures
        s@ == spec_pad2(n as int),
{
    if n < 10 {
        proof {
            reveal_strlit("0");
        }
        let mut s = String::from_str("0");
        let rest = u64_to_string(n);
        s.append(rest.as_str());
        proof {
            assert(s@ =~= spec_pad2(n as int));
        }
        s
    } else {
        u64_to_string(n)
    }
}

/// `total_secs` rendered as `MM:SS`.
pub fn format_mm_ss(total_secs: u64) -> (s: String)
    ensures
        s@ == spec_mm_ss(total_secs as int),
{
    proof {
        reveal_strlit(":");
    }
    let mut s = pad2_string(total_secs / 60);
    s.append(":");
    let secs = pad2_string(total_secs % 60);
    s.append(secs.as_str());
    proof {
        assert(s@ =~= spec_mm_ss(total_secs as int));
    }
    s
}

/// The filled share of the progress gauge, in permille of its width. The
/// computation is entirely integral, so a zero or missing total duration
/// gives an empty gauge and no division is ever undefined.
pub fn gauge_ratio_permille(position_millis: u64, total_millis: u64) -> (r: u32)
    ensures
        r == spec_ratio_permille(position_millis as int, total_millis as int),
        r <= 1000,
        total_millis == 0 ==> r == 0,
{
    if total_millis == 0 {
        0
    } else {
        let scaled: u128 = position_millis as u128 * 1000;
        let q: u128 = scaled / (total_millis as u128);
        if q > 1000 {
            1000
        } else {
            q as u32
        }
    }
}

/// The text shown for a metadata field: the field itself, or a placeholder
/// when the field is empty.
pub open spec fn spec_field_text(s: Seq<char>) -> Seq<char> {
    if s.len() == 0 {
        "<None>"@
    } else {
        s
    }
}

/// The text shown for a metadata field, as `spec_field_text` says.
pub fn display_or_none(s: &String) -> (r: String)
    ensures
        r@ == spec_field_text(s@),
{
    if s.as_str().is_empty() {
        String::from_str("<None>")
    } else {
        s.clone()
    }
}

} // verus!

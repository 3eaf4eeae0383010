//! ISO `YYYY-MM-DD` date text: rendering, parsing, and their round trip.
//!
//! Dates cross the persistence boundary as ISO strings; both directions
//! of that conversion are verified here.

use vstd::prelude::*;
use vstd::arithmetic::div_mod::{lemma_div_denominator, lemma_fundamental_div_mod};
use vstd::string::{StrSliceExecFns, StringExecFns};
use crate::date::{make_date, Date};
use crate::text::{digit_str, spec_digit_char};

verus! {

pub open spec fn spec_is_digit(c: char) -> bool {
    48 <= c as int <= 57
}

pub open spec fn spec_digit_val(c: char) -> int {
    c as int - 48
}

/// The ISO `YYYY-MM-DD` rendering of a date.
pub open spec fn spec_iso_chars(d: Date) -> Seq<char> {
    seq![
        spec_digit_char(d.year as int / 1000),
        spec_digit_char((d.year as int / 100) % 10),
        spec_digit_char((d.year as int / 10) % 10),
        spec_digit_char(d.year as int % 10),
        '-',
        spec_digit_char(d.month as int / 10),
        spec_digit_char(d.month as int % 10),
        '-',
        spec_digit_char(d.day as int / 10),
        spec_digit_char(d.day as int % 10),
    ]
}

/// Format a date as `YYYY-MM-DD`.
pub fn iso_date_string(d: Date) -> (r: String)
    requires
        d.valid(),
    ensures
        r@ == spec_iso_chars(d),
{
    proof {
        reveal_strlit("-");
    }
    let mut s = String::new();
    s.append(digit_str(d.year / 1000));
    s.append(digit_str((d.year / 100) % 10));
    s.append(digit_str((d.year / 10) % 10));
    s.append(digit_str(d.year % 10));
    s.append("-");
    s.append(digit_str(d.month / 10));
    s.append(digit_str(d.month % 10));
    s.append("-");
    s.append(digit_str(d.day / 10));
    s.append(digit_str(d.day % 10));
    proof {
        assert(s@ =~= spec_iso_chars(d));
    }
    s
}

/// The date a ten-character `YYYY-MM-DD` text denotes, if it is
/// well-shaped and names a real calendar day.
pub open spec fn spec_parse_iso_date(s: Seq<char>) -> Option<Date> {
    if s.len() == 10 && spec_is_digit(s[0]) && spec_is_digit(s[1]) && spec_is_digit(s[2])
        && spec_is_digit(s[3]) && s[4] == '-' && spec_is_digit(s[5]) && spec_is_digit(s[6]) && s[7]
        == '-' && spec_is_digit(s[8]) && spec_is_digit(s[9]) {
        let date = Date {
            year: (1000 * spec_digit_val(s[0]) + 100 * spec_digit_val(s[1]) + 10 * spec_digit_val(
                s[2],
            ) + spec_digit_val(s[3])) as u32,
            month: (10 * spec_digit_val(s[5]) + spec_digit_val(s[6])) as u32,
            day: (10 * spec_digit_val(s[8]) + spec_digit_val(s[9])) as u32,
        };
        if date.valid() {
            Some(date)
        } else {
            None
        }
    } else {
        None
    }
}

/// The digit a character denotes, if any.
fn char_digit(c: char) -> (r: Option<u32>)
    ensures
        r is Some <==> spec_is_digit(c),
        r matches Some(v) ==> v == spec_digit_val(c) && v <= 9,
{
    let v = c as u32;
    if 48 <= v && v <= 57 {
        Some(v - 48)
    } else {
        None
    }
}

/// Parse a `YYYY-MM-DD` text; `Some` exactly on well-shaped texts that
/// name a real calendar day.
pub fn parse_iso_date(s: &str) -> (r: Option<Date>)
    ensures
        r == spec_parse_iso_date(s@),
{
    if s.unicode_len() != 10 {
        return None;
    }
    let d0 = match char_digit(s.get_char(0)) {
        Some(v) => v,
        None => {
            return None;
        },
    };
    let d1 = match char_digit(s.get_char(1)) {
        Some(v) => v,
        None => {
            return None;
        },
    };
    let d2 = match char_digit(s.get_char(2)) {
        Some(v) => v,
        None => {
            return None;
        },
    };
    let d3 = match char_digit(s.get_char(3)) {
        Some(v) => v,
        None => {
            return None;
        },
    };
    if s.get_char(4) != '-' {
        return None;
    }
    let d5 = match char_digit(s.get_char(5)) {
        Some(v) => v,
        None => {
            return None;
        },
    };
    let d6 = match char_digit(s.get_char(6)) {
        Some(v) => v,
        None => {
            return None;
        },
    };
    if s.get_char(7) != '-' {
        return None;
    }
    let d8 = match char_digit(s.get_char(8)) {
        Some(v) => v,
        None => {
            return None;
        },
    };
    let d9 = match char_digit(s.get_char(9)) {
        Some(v) => v,
        None => {
            return None;
        },
    };
    make_date(1000 * d0 + 100 * d1 + 10 * d2 + d3, 10 * d5 + d6, 10 * d8 + d9)
}

/// The four decimal digits of a number below 10000 reassemble to the
/// number itself.
proof fn lemma_four_digit_decomposition(y: int)
    requires
        0 <= y <= 9999,
    ensures
        1000 * (y / 1000) + 100 * ((y / 100) % 10) + 10 * ((y / 10) % 10) + y % 10 == y,
{
    lemma_div_denominator(y, 10, 10);
    lemma_div_denominator(y, 100, 10);
    lemma_fundamental_div_mod(y, 10);
    lemma_fundamental_div_mod(y / 10, 10);
    lemma_fundamental_div_mod(y / 100, 10);
}

/// The two decimal digits of a number below 100 reassemble to the number
/// itself.
proof fn lemma_two_digit_decomposition(x: int)
    requires
        0 <= x <= 99,
    ensures
        10 * (x / 10) + x % 10 == x,
{
    lemma_fundamental_div_mod(x, 10);
}

/// Rendering a valid date and parsing the text back yields the same
/// date.
pub proof fn lemma_iso_round_trip(d: Date)
    requires
        d.valid(),
    ensures
        spec_parse_iso_date(spec_iso_chars(d)) == Some(d),
{
    let s = spec_iso_chars(d);
    let y = d.year as int;
    let m = d.month as int;
    let dd = d.day as int;
    lemma_four_digit_decomposition(y);
    lemma_two_digit_decomposition(m);
    lemma_two_digit_decomposition(dd);
    assert(1000 * spec_digit_val(s[0]) + 100 * spec_digit_val(s[1]) + 10 * spec_digit_val(s[2])
        + spec_digit_val(s[3]) == y);
    assert(10 * spec_digit_val(s[5]) + spec_digit_val(s[6]) == m);
    assert(10 * spec_digit_val(s[8]) + spec_digit_val(s[9]) == dd);
}

} // verus!

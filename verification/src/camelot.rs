//! Camelot wheel codes for musical keys, and which of them mix well.
//!
//! A code is a number from 1 to 12 followed by a letter: `B` for a major key,
//! `A` for a minor one.

use vstd::prelude::*;
use vstd::string::*;
use crate::text::{all_digits, decimal, decimal_string, digits_value, lemma_decimal_reads_back,
    opt_view, str_eq};

verus! {

/// Mode number of a major key; every other mode number counts as minor.
pub const MODE_MAJOR: i32 = 0;

/// Mode number of a minor key.
pub const MODE_MINOR: i32 = 1;

/// Camelot numbers of the major keys, by pitch class of the root (C first).
pub open spec fn major_numbers() -> Seq<int> {
    seq![12, 7, 2, 9, 4, 11, 6, 1, 8, 3, 10, 5]
}

/// Camelot numbers of the minor keys, by pitch class of the root (C first).
pub open spec fn minor_numbers() -> Seq<int> {
    seq![9, 4, 11, 6, 1, 8, 3, 10, 5, 12, 7, 2]
}

/// The Camelot number of the key with the given root and mode.
pub open spec fn camelot_number(root: int, mode: int) -> int
    recommends
        0 <= root < 12,
{
    if mode == MODE_MAJOR {
        major_numbers()[root]
    } else {
        minor_numbers()[root]
    }
}

/// The Camelot letter of a mode.
pub open spec fn camelot_letter(mode: int) -> char {
    if mode == MODE_MAJOR {
        'B'
    } else {
        'A'
    }
}

/// The Camelot code of the key with the given root and mode: its number in
/// decimal, then its letter.
pub open spec fn camelot_code(root: int, mode: int) -> Seq<char>
    recommends
        0 <= root < 12,
{
    decimal(camelot_number(root, mode) as nat).push(camelot_letter(mode))
}

/// What a signed decimal numeral denotes: an optional `+` or `-`, then at
/// least one digit, and a value that a 32-bit signed integer holds. `None`
/// for any other text.
pub open spec fn parse_number(s: Seq<char>) -> Option<int> {
    if s.len() == 0 {
        None
    } else {
        let body = if s[0] == '-' || s[0] == '+' {
            s.skip(1)
        } else {
            s
        };
        let value = if s[0] == '-' {
            -digits_value(body)
        } else {
            digits_value(body)
        };
        if body.len() > 0 && all_digits(body) && i32::MIN <= value <= i32::MAX {
            Some(value)
        } else {
            None
        }
    }
}

/// A code split into the number written before its last character and that
/// last character. `None` if the code is empty or no number stands there.
pub open spec fn parse_camelot(code: Seq<char>) -> Option<(int, char)> {
    if code.len() == 0 {
        None
    } else {
        match parse_number(code.drop_last()) {
            Some(n) => Some((n, code.last())),
            None => None,
        }
    }
}

/// Whether two parsed codes are neighbours on the wheel: the same letter, and
/// numbers one step apart, where 12 is one step from 1.
pub open spec fn wheel_neighbours(a: (int, char), b: (int, char)) -> bool {
    let diff = if a.0 >= b.0 {
        a.0 - b.0
    } else {
        b.0 - a.0
    };
    (diff == 1 || diff == 11) && a.1 == b.1
}

/// Whether two keys are compatible: both are known, and their codes are equal
/// or neighbours on the wheel.
pub open spec fn camelot_compatible(a: Option<Seq<char>>, b: Option<Seq<char>>) -> bool {
    match (a, b) {
        (Some(x), Some(y)) => x == y || match (parse_camelot(x), parse_camelot(y)) {
            (Some(p), Some(q)) => wheel_neighbours(p, q),
            _ => false,
        },
        _ => false,
    }
}

/// The Camelot number of a key, or `None` if `root` is no pitch class.
pub fn camelot_number_of(root: i32, mode: i32) -> (r: Option<u32>)
    ensures
        (0 <= root < 12) ==> r == Some(camelot_number(root as int, mode as int) as u32),
        !(0 <= root < 12) ==> r is None,
        r is Some ==> 1 <= r->0 <= 12,
{
    if root < 0 || root >= 12 {
        return None;
    }
    let n: u32 = if mode == MODE_MAJOR {
        match root {
            0 => 12,
            1 => 7,
            2 => 2,
            3 => 9,
            4 => 4,
            5 => 11,
            6 => 6,
            7 => 1,
            8 => 8,
            9 => 3,
            10 => 10,
            _ => 5,
        }
    } else {
        match root {
            0 => 9,
            1 => 4,
            2 => 11,
            3 => 6,
            4 => 1,
            5 => 8,
            6 => 3,
            7 => 10,
            8 => 5,
            9 => 12,
            10 => 7,
            _ => 2,
        }
    };
    Some(n)
}

/// The Camelot code of the key with pitch class `root` (C is 0) and the given
/// mode (0 is major, anything else minor). `None` if `root` is not in `0..12`.
pub fn get_camelot_key(root: i32, mode: i32) -> (r: Option<String>)
    ensures
        (0 <= root < 12) ==> r is Some && r->0@ == camelot_code(root as int, mode as int),
        !(0 <= root < 12) ==> r is None,
{
    match camelot_number_of(root, mode) {
        None => None,
        Some(n) => {
            proof {
                reveal_strlit("A");
                reveal_strlit("B");
            }
            let letter: &'static str = if mode == MODE_MAJOR {
                "B"
            } else {
                "A"
            };
            let code: String = decimal_string(n).concat(letter);
            Some(code)
        },
    }
}

/// Reads the signed decimal numeral that the first `end` characters of `s`
/// spell.
pub fn parse_prefix_number(s: &str, end: usize) -> (r: Option<i32>)
    requires
        end <= s@.len(),
    ensures
        match r {
            Some(v) => parse_number(s@.take(end as int)) == Some(v as int),
            None => parse_number(s@.take(end as int)) is None,
        },
{
    let ghost text = s@.take(end as int);
    if end == 0 {
        return None;
    }
    let first: char = s.get_char(0);
    let negative: bool = first == '-';
    let start: usize = if first == '-' || first == '+' {
        1
    } else {
        0
    };
    let ghost body = text.skip(start as int);
    assert(text.skip(0) =~= text);
    if start == end {
        return None;
    }
    let mut acc: i64 = 0;
    let mut overflow: bool = false;
    let mut i: usize = start;
    while i < end
        invariant
            start <= i <= end,
            end <= s@.len(),
            text == s@.take(end as int),
            body == text.skip(start as int),
            text.len() > 0,
            start == 1 <==> (text[0] == '-' || text[0] == '+'),
            start == 0 || start == 1,
            negative <==> text[0] == '-',
            all_digits(body.take(i - start)),
            !overflow ==> acc == digits_value(body.take(i - start)) && 0 <= acc <= 0x8000_0000,
            overflow ==> digits_value(body.take(i - start)) > 0x8000_0000,
        decreases end - i,
    {
        let c: char = s.get_char(i);
        assert(c == body[i - start]);
        let ghost shorter = body.take(i - start);
        let ghost longer = body.take(i - start + 1);
        assert(longer.drop_last() =~= shorter);
        let code: u32 = c as u32;
        if code < 48 || code > 57 {
            return None;
        }
        if !overflow {
            let digit: i64 = (code - 48) as i64;
            acc = acc * 10 + digit;
            if acc > 0x8000_0000 {
                overflow = true;
            }
        }
        i += 1;
    }
    assert(body.take(end - start) =~= body);
    if overflow {
        None
    } else if negative {
        Some((-acc) as i32)
    } else if acc <= 0x7fff_ffff {
        Some(acc as i32)
    } else {
        None
    }
}

/// Whether two keys, given by their Camelot codes, are compatible: both are
/// known, and the codes are equal, or carry the same letter and numbers that
/// differ by 1 or by 11.
pub fn is_camelot_compatible(key_a: Option<&str>, key_b: Option<&str>) -> (r: bool)
    ensures
        r == camelot_compatible(opt_view(key_a), opt_view(key_b)),
{
    let (a, b) = match (key_a, key_b) {
        (Some(a), Some(b)) => (a, b),
        _ => {
            return false;
        },
    };
    if str_eq(a, b) {
        return true;
    }
    let len_a: usize = a.unicode_len();
    let len_b: usize = b.unicode_len();
    if len_a == 0 || len_b == 0 {
        return false;
    }
    let na: i32 = match parse_prefix_number(a, len_a - 1) {
        Some(n) => n,
        None => {
            return false;
        },
    };
    let nb: i32 = match parse_prefix_number(b, len_b - 1) {
        Some(n) => n,
        None => {
            return false;
        },
    };
    let ma: char = a.get_char(len_a - 1);
    let mb: char = b.get_char(len_b - 1);
    let wide_a: i64 = na as i64;
    let wide_b: i64 = nb as i64;
    let diff: i64 = if wide_a >= wide_b {
        wide_a - wide_b
    } else {
        wide_b - wide_a
    };
    (diff == 1 || diff == 11) && ma == mb
}

/// Compatibility does not depend on the order of the two keys.
pub proof fn law_compatible_symmetric(a: Option<Seq<char>>, b: Option<Seq<char>>)
    ensures
        camelot_compatible(a, b) == camelot_compatible(b, a),
{
}

/// Every known key is compatible with itself.
pub proof fn law_compatible_reflexive(a: Option<Seq<char>>)
    requires
        a is Some,
    ensures
        camelot_compatible(a, a),
{
}

/// The code of a key reads back as that key's number, which lies between 1
/// and 12, and its letter, which is `A` or `B`.
pub proof fn law_code_reads_back(root: int, mode: int)
    requires
        0 <= root < 12,
    ensures
        parse_camelot(camelot_code(root, mode)) == Some(
            (camelot_number(root, mode), camelot_letter(mode)),
        ),
        1 <= camelot_number(root, mode) <= 12,
        camelot_letter(mode) == 'A' || camelot_letter(mode) == 'B',
{
    lemma_decimal_reads_back(camelot_number(root, mode) as nat);
    assert(camelot_code(root, mode).drop_last() =~= decimal(camelot_number(root, mode) as nat));
}

} // verus!

//! Choosing the listening port from the optional command-line
//! argument.
//!
//! The first argument, when present, is parsed as a decimal 16-bit
//! port: an optional leading `+`, then one or more ASCII digits, with
//! a value of at most 65535.  A missing or unparsable argument falls
//! back to [`crate::DEFAULT_PORT`].  Reading the argument itself is
//! the binary's business; the parsing is decided here.

use vstd::prelude::*;

verus! {

/// `b` is an ASCII decimal digit.
pub open spec fn is_digit(b: u8) -> bool {
    48 <= b <= 57
}

/// Every byte of `s` is an ASCII digit.
pub open spec fn all_digits(s: Seq<u8>) -> bool {
    forall|i: int| 0 <= i < s.len() ==> is_digit(#[trigger] s[i])
}

/// The number the digit string `s` denotes in decimal.
pub open spec fn digits_value(s: Seq<u8>) -> int
    decreases s.len(),
{
    if s.len() == 0 {
        0
    } else {
        digits_value(s.drop_last()) * 10 + (s.last() - 48)
    }
}

/// The digit part of a port argument: what follows one optional `+`.
pub open spec fn digits_of(s: Seq<u8>) -> Seq<u8> {
    if s.len() > 0 && s[0] == 43 {
        s.drop_first()
    } else {
        s
    }
}

/// What parsing `s` as a decimal port yields: after the optional sign
/// there must be one or more digits, denoting at most 65535.
pub open spec fn parse_u16_spec(s: Seq<u8>) -> Option<u16> {
    let d = digits_of(s);
    if d.len() >= 1 && all_digits(d) && digits_value(d) <= 65535 {
        Option::Some(digits_value(d) as u16)
    } else {
        Option::None
    }
}

/// Parses a decimal 16-bit number: an optional leading `+`, then one
/// or more ASCII digits, rejecting values over 65535.
pub fn parse_u16(s: &[u8]) -> (r: Option<u16>)
    ensures
        r == parse_u16_spec(s@),
{
    let digits: &[u8] = if s.len() > 0 && s[0] == 43 {
        &s[1..s.len()]
    } else {
        s
    };
    proof {
        if s@.len() > 0 && s@[0] == 43 {
            assert(digits@ =~= digits_of(s@));
        }
    }
    let n = digits.len();
    if n == 0 {
        return Option::None;
    }
    let mut i: usize = 0;
    let mut acc: u32 = 0;
    let mut too_big: bool = false;
    while i < n
        invariant
            n == digits@.len(),
            1 <= n,
            digits@ == digits_of(s@),
            0 <= i <= n,
            forall|k: int| 0 <= k < i ==> is_digit(#[trigger] digits@[k]),
            !too_big ==> acc == digits_value(digits@.subrange(0, i as int)) && acc <= 65535,
            too_big ==> digits_value(digits@.subrange(0, i as int)) > 65535,
        decreases n - i,
    {
        let b = digits[i];
        if b < 48 || b > 57 {
            assert(!all_digits(digits_of(s@)));
            return Option::None;
        }
        proof {
            let pre = digits@.subrange(0, i as int);
            let ext = digits@.subrange(0, i + 1);
            assert(ext.drop_last() =~= pre);
            assert(ext.last() == digits@[i as int]);
        }
        if too_big {
            assert(digits_value(digits@.subrange(0, i + 1)) > 65535);
        } else {
            let next = acc * 10 + (b - 48) as u32;
            if next > 65535 {
                too_big = true;
            } else {
                acc = next;
            }
        }
        i = i + 1;
    }
    assert(digits@.subrange(0, n as int) =~= digits@);
    if too_big {
        Option::None
    } else {
        Option::Some(acc as u16)
    }
}

/// The port picked from the optional first argument: its value when it
/// parses, the default when it is absent or invalid.
pub open spec fn choose_port_spec(arg: Option<Seq<u8>>) -> u16 {
    match arg {
        Option::Some(s) => match parse_u16_spec(s) {
            Option::Some(p) => p,
            Option::None => crate::DEFAULT_PORT,
        },
        Option::None => crate::DEFAULT_PORT,
    }
}

/// Picks the listening port from the optional first argument.
pub fn choose_port(arg: Option<&[u8]>) -> (p: u16)
    ensures
        p == choose_port_spec(
            match arg {
                Option::Some(a) => Option::Some(a@),
                Option::None => Option::None,
            },
        ),
{
    match arg {
        Option::Some(a) => match parse_u16(a) {
            Option::Some(p) => p,
            Option::None => crate::DEFAULT_PORT,
        },
        Option::None => crate::DEFAULT_PORT,
    }
}

} // verus!

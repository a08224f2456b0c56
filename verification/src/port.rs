//! Resolving the listener port from an optional environment value.
//!
//! The service listens on the port named by the `PORT` environment
//! variable; when the variable is absent or is not a decimal `u16`,
//! the service falls back to port 8000.

use vstd::prelude::*;

verus! {

/// The port used when no usable value is configured.
pub const DEFAULT_PORT: u16 = 8000;

/// `c` is one of the ASCII digits `'0'` through `'9'`.
pub open spec fn spec_is_ascii_digit(c: char) -> bool {
    '0' <= c && c <= '9'
}

/// Numeric value of an ASCII digit.
pub open spec fn spec_digit_value(c: char) -> int {
    c as int - '0' as int
}

/// Every character of `s` is an ASCII digit.
pub open spec fn spec_all_digits(s: Seq<char>) -> bool {
    forall|i: int| 0 <= i < s.len() ==> spec_is_ascii_digit(s[i])
}

/// The number written in decimal by the digits of `s` (0 when empty).
pub open spec fn spec_digits_value(s: Seq<char>) -> int
    decreases s.len(),
{
    if s.len() == 0 {
        0
    } else {
        spec_digits_value(s.drop_last()) * 10 + spec_digit_value(s.last())
    }
}

/// `s` without its optional leading `'+'` sign.
pub open spec fn spec_trim_plus(s: Seq<char>) -> Seq<char> {
    if s.len() > 0 && s[0] == '+' {
        s.subrange(1, s.len() as int)
    } else {
        s
    }
}

/// The value `s` denotes as a decimal `u16`: after an optional leading
/// `'+'`, a non-empty run of ASCII digits whose value fits in `u16`;
/// anything else denotes nothing.
pub open spec fn spec_parse_u16(s: Seq<char>) -> Option<u16> {
    let t = spec_trim_plus(s);
    if t.len() > 0 && spec_all_digits(t) && spec_digits_value(t) <= 65535 {
        Some(spec_digits_value(t) as u16)
    } else {
        None
    }
}

/// Parses `s` as a decimal `u16`, accepting exactly the strings that
/// denote one: an optional leading `'+'`, then at least one ASCII
/// digit, with a value of at most 65535.
pub fn parse_u16(s: &str) -> (r: Option<u16>)
    ensures
        r == spec_parse_u16(s@),
{
    let n = s.unicode_len();
    let offset: usize = if n > 0 && s.get_char(0) == '+' {
        1
    } else {
        0
    };
    let ghost t = spec_trim_plus(s@);
    if n == offset {
        return None;
    }
    let mut acc: u32 = 0;
    let mut overflowed = false;
    let mut i = offset;
    while i < n
        invariant
            offset <= i <= n,
            n == s@.len(),
            offset == 1 ==> n > 0 && s@[0] == '+',
            offset == 0 ==> !(n > 0 && s@[0] == '+'),
            t == spec_trim_plus(s@),
            t.len() == n - offset,
            forall|j: int| 0 <= j < t.len() ==> t[j] == s@[j + offset],
            forall|j: int| 0 <= j < i - offset ==> spec_is_ascii_digit(t[j]),
            !overflowed ==> acc == spec_digits_value(t.subrange(0, i - offset)) && acc <= 65535,
            overflowed ==> spec_digits_value(t.subrange(0, i - offset)) > 65535,
        decreases n - i,
    {
        let c = s.get_char(i);
        let v = c as u32;
        proof {
            assert(t[i - offset] == s@[i as int]);
        }
        if v < 48 || v > 57 {
            proof {
                assert(!spec_is_ascii_digit(t[i - offset]));
            }
            return None;
        }
        proof {
            let k = i - offset;
            assert(t.subrange(0, k + 1).drop_last() =~= t.subrange(0, k));
            assert(t.subrange(0, k + 1).last() == t[k]);
        }
        if !overflowed {
            let next = acc * 10 + (v - 48);
            if next > 65535 {
                overflowed = true;
            } else {
                acc = next;
            }
        }
        i = i + 1;
    }
    proof {
        assert(t.subrange(0, n - offset) =~= t);
    }
    if overflowed {
        None
    } else {
        Some(acc as u16)
    }
}

/// The port the service binds given the configured value: the value
/// itself when it is a decimal `u16`, 8000 otherwise or when none is
/// configured.
pub open spec fn spec_port_of(v: Option<Seq<char>>) -> u16 {
    match v {
        None => DEFAULT_PORT,
        Some(s) => match spec_parse_u16(s) {
            Some(p) => p,
            None => DEFAULT_PORT,
        },
    }
}

/// Resolves the listener port from the optional `PORT` value: a value
/// that names a decimal `u16` wins; a missing or malformed value falls
/// back to 8000.
pub fn resolve_port(port_var: Option<&str>) -> (p: u16)
    ensures
        (match port_var {
            None => p == DEFAULT_PORT,
            Some(s) => p == spec_port_of(Some(s@)),
        }),
{
    match port_var {
        None => DEFAULT_PORT,
        Some(s) => match parse_u16(s) {
            Some(p) => p,
            None => DEFAULT_PORT,
        },
    }
}

} // verus!

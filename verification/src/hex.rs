//! Hexadecimal parsing of 16-bit identifiers: vendor and product ids appear
//! as hex fields both in hotplug lines and in the startup configuration
//! (there optionally prefixed with `0x`).

use vstd::prelude::*;

verus! {

/// Whether `c` is an ASCII hexadecimal digit.
pub open spec fn is_hex_digit(c: u8) -> bool {
    (0x30 <= c <= 0x39) || (0x41 <= c <= 0x46) || (0x61 <= c <= 0x66)
}

/// Value of one ASCII hexadecimal digit.
pub open spec fn hex_digit_value(c: u8) -> nat {
    if 0x30 <= c <= 0x39 {
        (c - 0x30) as nat
    } else if 0x41 <= c <= 0x46 {
        (c - 0x41 + 10) as nat
    } else if 0x61 <= c <= 0x66 {
        (c - 0x61 + 10) as nat
    } else {
        0
    }
}

/// Whether every byte of `s` is a hexadecimal digit.
pub open spec fn all_hex_digits(s: Seq<u8>) -> bool {
    forall|i: int| 0 <= i < s.len() ==> is_hex_digit(s[i])
}

/// The number a string of hexadecimal digits denotes, most significant
/// digit first.
pub open spec fn hex_value(s: Seq<u8>) -> nat
    decreases s.len(),
{
    if s.len() == 0 {
        0
    } else {
        hex_value(s.drop_last()) * 16 + hex_digit_value(s.last())
    }
}

/// What parsing `s` as a 16-bit hexadecimal number yields: its value when
/// `s` is nonempty, all digits, and small enough; nothing otherwise.
pub open spec fn spec_parse_hex_u16(s: Seq<u8>) -> Option<u16> {
    if s.len() > 0 && all_hex_digits(s) && hex_value(s) <= 0xFFFF {
        Some(hex_value(s) as u16)
    } else {
        None
    }
}

/// Parses `s` as a 16-bit hexadecimal number.  Succeeds exactly when `s` is
/// nonempty, every byte is a hexadecimal digit, and the denoted value fits
/// in 16 bits; the parsed value is the denoted one.
pub fn parse_hex_u16(s: &[u8]) -> (r: Option<u16>)
    ensures
        r == spec_parse_hex_u16(s@),
        r is Some <==> (s@.len() > 0 && all_hex_digits(s@) && hex_value(s@) <= 0xFFFF),
        r is Some ==> r->0 == hex_value(s@),
{
    let n = s.len();
    if n == 0 {
        return None;
    }
    let mut acc: u32 = 0;
    let mut i: usize = 0;
    while i < n
        invariant
            n == s@.len(),
            0 < n,
            i <= n,
            all_hex_digits(s@.subrange(0, i as int)),
            if hex_value(s@.subrange(0, i as int)) <= 0xFFFF {
                acc == hex_value(s@.subrange(0, i as int))
            } else {
                acc == 0x10000
            },
        decreases n - i,
    {
        let c = s[i];
        let d: u8 = if 0x30 <= c && c <= 0x39 {
            c - 0x30
        } else if 0x41 <= c && c <= 0x46 {
            c - 0x41 + 10
        } else if 0x61 <= c && c <= 0x66 {
            c - 0x61 + 10
        } else {
            assert(!is_hex_digit(s@[i as int]));
            return None;
        };
        assert(is_hex_digit(s@[i as int]) && d == hex_digit_value(s@[i as int]));
        let t: u32 = acc * 16 + d as u32;
        let ghost p = s@.subrange(0, i as int);
        let ghost q = s@.subrange(0, i + 1);
        proof {
            assert(q.drop_last() =~= p);
            assert(hex_value(q) == hex_value(p) * 16 + hex_digit_value(s@[i as int]));
            if hex_value(p) > 0xFFFF {
                assert(hex_value(p) * 16 >= hex_value(p)) by (nonlinear_arith);
            }
        }
        acc = if t > 0xFFFF {
            0x10000
        } else {
            t
        };
        i += 1;
    }
    assert(s@.subrange(0, n as int) =~= s@);
    if acc > 0xFFFF {
        return None;
    }
    Some(acc as u16)
}

/// Strips every leading `0x` from `s`, as the configuration parser does.
pub open spec fn strip_hex_prefixes(s: Seq<u8>) -> Seq<u8>
    decreases s.len(),
{
    if s.len() >= 2 && s[0] == 0x30 && s[1] == 0x78 {
        strip_hex_prefixes(s.skip(2))
    } else {
        s
    }
}

/// Parses a configured device identifier: a hexadecimal string, optionally
/// prefixed with `0x` (a repeated prefix is also stripped).
pub fn parse_device_id(s: &[u8]) -> (r: Option<u16>)
    ensures
        ({
            let t = strip_hex_prefixes(s@);
            &&& r is Some <==> (t.len() > 0 && all_hex_digits(t) && hex_value(t) <= 0xFFFF)
            &&& r is Some ==> r->0 == hex_value(t)
        }),
{
    let mut start: usize = 0;
    proof {
        assert(s@.skip(0) =~= s@);
    }
    while s.len() - start > 1 && s[start] == 0x30 && s[start + 1] == 0x78
        invariant
            start <= s@.len(),
            strip_hex_prefixes(s@) == strip_hex_prefixes(s@.skip(start as int)),
        decreases s@.len() - start,
    {
        proof {
            let rest = s@.skip(start as int);
            assert(rest[0] == 0x30 && rest[1] == 0x78);
            assert(rest.skip(2) =~= s@.skip(start + 2));
        }
        start += 2;
    }
    let tail = vstd::slice::slice_subrange(s, start, s.len());
    proof {
        let rest = s@.skip(start as int);
        assert(tail@ =~= rest);
        if rest.len() >= 2 {
            assert(rest[0] == s@[start as int] && rest[1] == s@[start + 1]);
        }
        assert(strip_hex_prefixes(rest) == rest);
    }
    parse_hex_u16(tail)
}

} // verus!

//! Server settings read from the environment.
use vstd::prelude::*;
use crate::text::{all_digits, decimal, digit_value, digits_value, is_digit, lemma_decimal_digits};

verus! {

/// The port the server listens on when none is configured, or when the
/// configured value is not a port number.
pub const DEFAULT_PORT: u16 = 8000;

/// What `u16::from_str` returns for `s`: an optional `+` followed by at least
/// one decimal digit, whose value fits in 16 bits.
pub open spec fn parse_u16(s: Seq<char>) -> Option<u16> {
    let body = if s.len() > 0 && s[0] == '+' { s.drop_first() } else { s };
    if body.len() > 0 && all_digits(body) && digits_value(body) <= 0xffff {
        Some(digits_value(body) as u16)
    } else {
        None
    }
}

/// The port that a configured value selects: the value read as a `u16`, or
/// the default port where nothing is configured or the value is no port number.
pub open spec fn spec_listening_port(configured: Option<Seq<char>>) -> u16 {
    match configured {
        Some(v) => match parse_u16(v) {
            Some(p) => p,
            None => DEFAULT_PORT,
        },
        None => DEFAULT_PORT,
    }
}

/// A port written in decimal, as the server writes it, configures that port.
pub proof fn lemma_port_roundtrip(p: u16)
    ensures
        parse_u16(decimal(p as nat)) == Some(p),
        spec_listening_port(Some(decimal(p as nat))) == p,
{
    lemma_decimal_digits(p as nat);
    let s = decimal(p as nat);
    assert(is_digit(s[0]));
}

/// Among decimal digits, a longer run never spells a smaller number than its prefix.
proof fn lemma_digits_value_prefix(t: Seq<char>, k: int)
    requires
        0 <= k <= t.len(),
        all_digits(t),
    ensures
        digits_value(t) >= digits_value(t.take(k)),
    decreases t.len(),
{
    if k < t.len() {
        let u = t.drop_last();
        assert(all_digits(u)) by {
            assert forall|i: int| 0 <= i < u.len() implies is_digit(#[trigger] u[i]) by {
                assert(u[i] == t[i]);
            }
        }
        lemma_digits_value_prefix(u, k);
        assert(u.take(k) =~= t.take(k));
    } else {
        assert(t.take(k) =~= t);
    }
}

/// Reads `s` as `u16::from_str` does: an optional `+`, then decimal digits
/// whose value fits in 16 bits.
fn parse_u16_decimal(s: &str) -> (r: Option<u16>)
    ensures
        r == parse_u16(s@),
{
    let len = s.unicode_len();
    let mut start: usize = 0;
    if len > 0 && s.get_char(0) == '+' {
        start = 1;
    }
    let ghost body = if s@.len() > 0 && s@[0] == '+' { s@.drop_first() } else { s@ };
    assert(body =~= s@.subrange(start as int, len as int));
    if start == len {
        return None;
    }
    let mut i: usize = start;
    let mut value: u32 = 0;
    assert(s@.subrange(start as int, start as int) =~= Seq::<char>::empty());
    while i < len
        invariant
            start <= i <= len,
            start < len,
            len == s@.len(),
            body =~= s@.subrange(start as int, len as int),
            body == (if s@.len() > 0 && s@[0] == '+' { s@.drop_first() } else { s@ }),
            all_digits(s@.subrange(start as int, i as int)),
            value == digits_value(s@.subrange(start as int, i as int)),
            value <= 0xffff,
        decreases len - i,
    {
        let c = s.get_char(i);
        let ghost prefix = s@.subrange(start as int, i as int);
        let ghost next_prefix = s@.subrange(start as int, i + 1);
        assert(next_prefix.drop_last() =~= prefix);
        assert(next_prefix.last() == c);
        assert(body[i - start] == c);
        if !('0' <= c && c <= '9') {
            assert(!is_digit(body[i - start]));
            assert(!all_digits(body));
            assert(parse_u16(s@) is None);
            return None;
        }
        let d: u32 = (c as u32) - 48;
        assert(d == digit_value(c));
        let next: u32 = value * 10 + d;
        assert(next == digits_value(next_prefix));
        assert(all_digits(next_prefix)) by {
            assert forall|j: int| 0 <= j < next_prefix.len() implies is_digit(#[trigger] next_prefix[j]) by {
                if j < prefix.len() {
                    assert(next_prefix[j] == prefix[j]);
                }
            }
        }
        if next > 0xffff {
            proof {
                assert(next_prefix =~= body.take(i + 1 - start));
                if all_digits(body) {
                    lemma_digits_value_prefix(body, i + 1 - start);
                    assert(digits_value(body) > 0xffff);
                }
                assert(parse_u16(s@) is None);
            }
            return None;
        }
        value = next;
        i = i + 1;
    }
    Some(value as u16)
}

/// The port to listen on, given the configured value, if any: that value
/// read as a port number, or `DEFAULT_PORT` where none is configured or the
/// value is not a port number.
pub fn listening_port(configured: Option<&str>) -> (port: u16)
    ensures
        port == spec_listening_port(
            match configured {
                Some(v) => Some(v@),
                None => None,
            },
        ),
{
    match configured {
        Some(v) => match parse_u16_decimal(v) {
            Some(p) => p,
            None => DEFAULT_PORT,
        },
        None => DEFAULT_PORT,
    }
}

} // verus!

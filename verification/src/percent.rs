//! Percent-escapes in request paths: `%` and two hexadecimal digits stand for
//! one byte.  An escape that is cut short or is not hexadecimal fails the
//! request; it is never passed through and never dropped.

use vstd::prelude::*;
use crate::error::HttpError;

verus! {

/// The byte `%`, which begins an escape.
pub const PERCENT: u8 = 0x25;

/// The value of a hexadecimal digit, in either case, or nothing for any other
/// byte.
pub open spec fn hex_value(b: u8) -> Option<u8> {
    if 0x30 <= b <= 0x39 {
        Some((b - 0x30) as u8)
    } else if 0x41 <= b <= 0x46 {
        Some((b - 0x41 + 10) as u8)
    } else if 0x61 <= b <= 0x66 {
        Some((b - 0x61 + 10) as u8)
    } else {
        None
    }
}

/// `s` begins with a whole escape.
pub open spec fn escape_at_front(s: Seq<u8>) -> bool {
    s.len() >= 3 && s[0] == PERCENT && hex_value(s[1]) is Some && hex_value(s[2]) is Some
}

/// The byte that the escape at the front of `s` stands for.
pub open spec fn escaped_byte(s: Seq<u8>) -> u8 {
    (hex_value(s[1])->Some_0 * 16 + hex_value(s[2])->Some_0) as u8
}

/// What `s` decodes to: every escape replaced by its byte, every other byte
/// kept; nothing at all where a `%` begins no whole escape.
pub open spec fn decoded(s: Seq<u8>) -> Option<Seq<u8>>
    decreases s.len(),
{
    if s.len() == 0 {
        Some(Seq::empty())
    } else if s[0] != PERCENT {
        match decoded(s.skip(1)) {
            Some(rest) => Some(seq![s[0]] + rest),
            None => None,
        }
    } else if escape_at_front(s) {
        match decoded(s.skip(3)) {
            Some(rest) => Some(seq![escaped_byte(s)] + rest),
            None => None,
        }
    } else {
        None
    }
}

/// What `rest` decodes to, put behind `out`.
pub open spec fn resume(out: Seq<u8>, rest: Seq<u8>) -> Option<Seq<u8>> {
    match decoded(rest) {
        Some(tail) => Some(out + tail),
        None => None,
    }
}

/// Reads one hexadecimal digit.
pub fn hex_digit(b: u8) -> (r: Option<u8>)
    ensures
        r == hex_value(b),
        r is Some ==> r->Some_0 < 16,
{
    if 0x30 <= b && b <= 0x39 {
        Some(b - 0x30)
    } else if 0x41 <= b && b <= 0x46 {
        Some(b - 0x41 + 10)
    } else if 0x61 <= b && b <= 0x66 {
        Some(b - 0x61 + 10)
    } else {
        None
    }
}

/// Decodes the escapes of `path` in place.  A malformed escape is a bad
/// request, and leaves `path` as it was.
pub fn unescape(path: &mut Vec<u8>) -> (r: Result<(), HttpError>)
    ensures
        match decoded(old(path)@) {
            Some(plain) => r == Ok::<(), HttpError>(()) && final(path)@ == plain,
            None => r == Err::<(), HttpError>(HttpError::BadRequest) && final(path)@ == old(path)@,
        },
{
    let n: usize = path.len();
    let mut out: Vec<u8> = Vec::new();
    let mut i: usize = 0;
    proof {
        assert(path@.skip(0) == path@);
        match decoded(path@) {
            Some(plain) => {
                assert(Seq::<u8>::empty() + plain == plain);
            },
            None => {},
        }
    }
    while i < n
        invariant
            n == path@.len(),
            path@ == old(path)@,
            i <= n,
            decoded(path@) == resume(out@, path@.skip(i as int)),
        decreases n - i,
    {
        let ghost rest = path@.skip(i as int);
        let c: u8 = path[i];
        assert(rest[0] == c);
        if c != PERCENT {
            proof {
                assert(rest.skip(1) == path@.skip(i + 1));
                match decoded(rest.skip(1)) {
                    Some(tail) => {
                        assert(out@ + (seq![c] + tail) == out@.push(c) + tail);
                    },
                    None => {},
                }
            }
            out.push(c);
            i += 1;
        } else {
            if n - i < 3 {
                return Err(HttpError::BadRequest);
            }
            assert(rest[1] == path@[i + 1]);
            assert(rest[2] == path@[i + 2]);
            let hi = hex_digit(path[i + 1]);
            let lo = hex_digit(path[i + 2]);
            match (hi, lo) {
                (Some(h), Some(l)) => {
                    let b: u8 = h * 16 + l;
                    proof {
                        assert(rest.skip(3) == path@.skip(i + 3));
                        match decoded(rest.skip(3)) {
                            Some(tail) => {
                                assert(out@ + (seq![b] + tail) == out@.push(b) + tail);
                            },
                            None => {},
                        }
                    }
                    out.push(b);
                    i += 3;
                },
                _ => {
                    return Err(HttpError::BadRequest);
                },
            }
        }
    }
    proof {
        assert(path@.skip(i as int) == Seq::<u8>::empty());
        assert(out@ + Seq::<u8>::empty() == out@);
    }
    *path = out;
    Ok(())
}

} // verus!

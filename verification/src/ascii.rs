//! Operations on byte strings in an unspecified 8-bit encoding that is a
//! superset of ASCII.  Only the ASCII letters have a case.

use vstd::prelude::*;

verus! {

/// The lower-case form of a byte: the ASCII capitals move down, all else stays.
pub open spec fn lower(b: u8) -> u8 {
    if 0x41 <= b && b <= 0x5a {
        (b + 0x20) as u8
    } else {
        b
    }
}

/// Two byte strings are equal up to the case of ASCII letters.
pub open spec fn eq_ignore_case(a: Seq<u8>, b: Seq<u8>) -> bool {
    &&& a.len() == b.len()
    &&& forall|i: int| 0 <= i < a.len() ==> lower(#[trigger] a[i]) == lower(b[i])
}

/// `s` begins with `prefix`, up to the case of ASCII letters.
pub open spec fn starts_with_ignore_case(s: Seq<u8>, prefix: Seq<u8>) -> bool {
    &&& prefix.len() <= s.len()
    &&& eq_ignore_case(s.subrange(0, prefix.len() as int), prefix)
}

/// Lower-cases one byte.
pub fn to_lower(b: u8) -> (r: u8)
    ensures
        r == lower(b),
{
    if 0x41 <= b && b <= 0x5a {
        b + 0x20
    } else {
        b
    }
}

/// Objects that can have a prefix of 8-bit characters.
pub trait AsciiPrefix {
    /// The bytes that the object holds.
    spec fn bytes(&self) -> Seq<u8>;

    /// Checks whether this object starts with `prefix`, ignoring the case of
    /// ASCII letters.
    fn starts_with_ignore_ascii_case(&self, prefix: &[u8]) -> (r: bool)
        ensures
            r == starts_with_ignore_case(self.bytes(), prefix@),
    ;
}

/// Compares the first `prefix.len()` bytes of `s` with `prefix`.
fn slice_starts_with(s: &[u8], prefix: &[u8]) -> (r: bool)
    ensures
        r == starts_with_ignore_case(s@, prefix@),
{
    if s.len() < prefix.len() {
        return false;
    }
    let n: usize = prefix.len();
    let mut i: usize = 0;
    while i < n
        invariant
            n == prefix.len(),
            n <= s.len(),
            i <= n,
            forall|j: int| 0 <= j < i ==> lower(#[trigger] s@[j]) == lower(prefix@[j]),
        decreases n - i,
    {
        if to_lower(s[i]) != to_lower(prefix[i]) {
            assert(s@.subrange(0, n as int)[i as int] == s@[i as int]);
            return false;
        }
        i += 1;
    }
    assert forall|j: int| 0 <= j < n implies lower(#[trigger] s@.subrange(0, n as int)[j])
        == lower(prefix@[j]) by {
        assert(s@.subrange(0, n as int)[j] == s@[j]);
    }
    true
}

impl AsciiPrefix for Vec<u8> {
    open spec fn bytes(&self) -> Seq<u8> {
        self@
    }

    fn starts_with_ignore_ascii_case(&self, prefix: &[u8]) -> (r: bool) {
        slice_starts_with(self.as_slice(), prefix)
    }
}

impl<'a> AsciiPrefix for &'a [u8] {
    open spec fn bytes(&self) -> Seq<u8> {
        self@
    }

    fn starts_with_ignore_ascii_case(&self, prefix: &[u8]) -> (r: bool) {
        slice_starts_with(*self, prefix)
    }
}

} // verus!

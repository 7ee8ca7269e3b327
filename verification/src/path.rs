//! Paths that cannot leave the directory they start in.
//!
//! Sanitizing never refuses a path: it rewrites it.  A run of slashes becomes
//! one slash, and a dot that would begin a segment becomes a colon, so that no
//! segment of the result is `.` or `..`, whatever bytes came in.

use vstd::prelude::*;

verus! {

/// The byte `/`, which parts the segments of a path.
pub const SLASH: u8 = 0x2f;

/// The byte `.`.
pub const DOT: u8 = 0x2e;

/// The byte `:`, which stands in for a dot at the start of a segment.
pub const COLON: u8 = 0x3a;

/// The byte that `c` becomes when it follows the output `head`, or nothing
/// where it is dropped.
pub open spec fn step(head: Seq<u8>, c: u8) -> Seq<u8> {
    let after_slash = head.len() > 0 && head.last() == SLASH;
    if after_slash && c == SLASH {
        head
    } else if after_slash && c == DOT {
        head.push(COLON)
    } else {
        head.push(c)
    }
}

/// The sanitized form of `raw`: its bytes taken from left to right, each one
/// added by `step` to what the bytes before it gave.
pub open spec fn sanitized(raw: Seq<u8>) -> Seq<u8>
    decreases raw.len(),
{
    if raw.len() == 0 {
        Seq::empty()
    } else {
        step(sanitized(raw.drop_last()), raw.last())
    }
}

/// No slash in `p` is followed by a slash or by a dot: no segment is empty
/// but perhaps the last, and none after the first begins with a dot.
pub open spec fn confined(p: Seq<u8>) -> bool {
    forall|i: int| 0 < i < p.len() && p[i - 1] == SLASH ==> #[trigger] p[i] != SLASH && p[i] != DOT
}

/// A segment of `p` begins at `i`: at the start, or right after a slash.
pub open spec fn segment_start(p: Seq<u8>, i: int) -> bool {
    0 <= i < p.len() && (i == 0 || p[i - 1] == SLASH)
}

/// The segment of `p` that begins at `i` is `..`.
pub open spec fn parent_segment_at(p: Seq<u8>, i: int) -> bool {
    &&& segment_start(p, i)
    &&& i + 1 < p.len()
    &&& p[i] == DOT
    &&& p[i + 1] == DOT
    &&& (i + 2 == p.len() || p[i + 2] == SLASH)
}

/// `p` begins with `./`.
pub open spec fn rooted(p: Seq<u8>) -> bool {
    p.len() >= 2 && p[0] == DOT && p[1] == SLASH
}

/// Removes from a path all that could lead out of the directory it starts
/// in: repeated slashes, and dots at the start of a segment.
pub fn sanitize(raw: &[u8]) -> (out: Vec<u8>)
    ensures
        out@ == sanitized(raw@),
        confined(out@),
        out@.len() <= raw@.len(),
{
    let mut out: Vec<u8> = Vec::new();
    let mut i: usize = 0;
    while i < raw.len()
        invariant
            i <= raw.len(),
            out@ == sanitized(raw@.take(i as int)),
            confined(out@),
            out@.len() <= i,
        decreases raw.len() - i,
    {
        let c: u8 = raw[i];
        let after_slash: bool = out.len() > 0 && out[out.len() - 1] == SLASH;
        proof {
            assert(raw@.take(i + 1).drop_last() == raw@.take(i as int));
            assert(raw@.take(i + 1).last() == c);
        }
        if after_slash && c == SLASH {
        } else if after_slash && c == DOT {
            out.push(COLON);
        } else {
            out.push(c);
        }
        i += 1;
    }
    assert(raw@.take(i as int) == raw@);
    out
}

/// Sanitizing gives a confined path.
pub proof fn lemma_sanitized_confined(raw: Seq<u8>)
    ensures
        confined(sanitized(raw)),
    decreases raw.len(),
{
    if raw.len() > 0 {
        lemma_sanitized_confined(raw.drop_last());
    }
}

/// A confined path is left as it is.
pub proof fn lemma_confined_fixed(p: Seq<u8>)
    requires
        confined(p),
    ensures
        sanitized(p) == p,
    decreases p.len(),
{
    if p.len() > 0 {
        let head = p.drop_last();
        assert forall|i: int| 0 < i < head.len() && head[i - 1] == SLASH implies #[trigger] head[i]
            != SLASH && head[i] != DOT by {
            assert(head[i] == p[i]);
            assert(head[i - 1] == p[i - 1]);
        }
        lemma_confined_fixed(head);
        if head.len() > 0 && head.last() == SLASH {
            assert(p[p.len() - 2] == SLASH);
            assert(p[p.len() - 1] != SLASH && p[p.len() - 1] != DOT);
        }
        assert(head.push(p.last()) == p);
    }
}

/// Sanitizing is idempotent: a second pass changes nothing.
pub proof fn lemma_sanitize_idempotent(raw: Seq<u8>)
    ensures
        sanitized(sanitized(raw)) == sanitized(raw),
{
    lemma_sanitized_confined(raw);
    lemma_confined_fixed(sanitized(raw));
}

/// What a path begins with decides what its sanitized form begins with: the
/// sanitized form of `a` is a prefix of that of `a + b`.
pub proof fn lemma_sanitized_prefix(a: Seq<u8>, b: Seq<u8>)
    ensures
        sanitized(a).is_prefix_of(sanitized(a + b)),
    decreases b.len(),
{
    if b.len() == 0 {
        assert(a + b == a);
    } else {
        lemma_sanitized_prefix(a, b.drop_last());
        assert((a + b).drop_last() == a + b.drop_last());
    }
}

/// No segment of a confined path is `..`, but perhaps the first.
pub proof fn lemma_confined_no_parent(p: Seq<u8>, i: int)
    requires
        confined(p),
        0 < i,
    ensures
        !parent_segment_at(p, i),
{
}

/// A confined path that begins with `./` has no `..` segment at all.
pub proof fn lemma_rooted_no_parent(p: Seq<u8>)
    requires
        confined(p),
        rooted(p),
    ensures
        forall|i: int| !parent_segment_at(p, i),
{
}

} // verus!

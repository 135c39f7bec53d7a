//! Copies and concatenations of byte strings.

use vstd::prelude::*;
use vstd::slice::{slice_subrange, slice_to_vec};

verus! {

/// The bytes of `a` followed by the bytes of `b`.
pub(crate) fn concat(a: &[u8], b: &[u8]) -> (out: Vec<u8>)
    ensures
        out@ == a@ + b@,
{
    let mut out: Vec<u8> = slice_to_vec(a);
    out.extend_from_slice(b);
    assert(out@ =~= a@ + b@);
    out
}

/// The bytes of `source` from `start` up to, not including, `end`.
pub(crate) fn copy_range(source: &[u8], start: usize, end: usize) -> (out: Vec<u8>)
    requires
        start <= end <= source@.len(),
    ensures
        out@ == source@.subrange(start as int, end as int),
{
    slice_to_vec(slice_subrange(source, start, end))
}

/// `tag`, then the bytes of `body`, then `padding` zero bytes.
pub(crate) fn frame(tag: u8, body: &[u8], padding: usize) -> (out: Vec<u8>)
    requires
        1 + body@.len() + padding <= usize::MAX,
    ensures
        out@ == framed(tag, body@, padding as nat),
{
    let mut out: Vec<u8> = Vec::new();
    out.push(tag);
    out.extend_from_slice(body);
    let ghost filled = out@;
    assert(filled =~= seq![tag] + body@);
    let mut i: usize = 0;
    while i < padding
        invariant
            i <= padding,
            out@ == filled + Seq::new(i as nat, |k: int| 0u8),
        decreases padding - i,
    {
        out.push(0u8);
        i = i + 1;
        assert(out@ =~= filled + Seq::new(i as nat, |k: int| 0u8));
    }
    out
}

/// A tag byte, a body, and `padding` zero bytes: the shape of the engine's
/// tagged containers.
pub open spec fn framed(tag: u8, body: Seq<u8>, padding: nat) -> Seq<u8> {
    seq![tag] + body + Seq::new(padding, |k: int| 0u8)
}

/// A framed container has one tag byte, then the body, then the padding.
pub proof fn lemma_framed(tag: u8, body: Seq<u8>, padding: nat)
    ensures
        framed(tag, body, padding).len() == 1 + body.len() + padding,
        framed(tag, body, padding)[0] == tag,
        framed(tag, body, padding).subrange(1, 1 + body.len() as int) == body,
        forall|k: int|
            1 + body.len() <= k < 1 + body.len() + padding ==> framed(tag, body, padding)[k]
                == 0,
{
    assert(framed(tag, body, padding).subrange(1, 1 + body.len() as int) =~= body);
}

} // verus!

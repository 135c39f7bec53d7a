//! The order of byte strings: by the first byte that differs, and a proper
//! prefix before what it is a prefix of.

use vstd::prelude::*;

verus! {

/// How one byte string stands to another.
#[derive(Clone, Copy, Debug, PartialEq, Eq, Structural)]
pub enum ByteOrder {
    /// It comes first.
    Before,
    /// They are the same bytes.
    Same,
    /// It comes last.
    After,
}

/// How `a` stands to `b` in the order of byte strings.
pub open spec fn byte_order(a: Seq<u8>, b: Seq<u8>) -> ByteOrder
    decreases a.len(),
{
    if a.len() == 0 {
        if b.len() == 0 {
            ByteOrder::Same
        } else {
            ByteOrder::Before
        }
    } else if b.len() == 0 {
        ByteOrder::After
    } else if a[0] < b[0] {
        ByteOrder::Before
    } else if a[0] > b[0] {
        ByteOrder::After
    } else {
        byte_order(a.skip(1), b.skip(1))
    }
}

/// Byte strings that agree on their first `n` bytes stand to each other as
/// what follows those bytes.
pub proof fn lemma_byte_order_common_prefix(a: Seq<u8>, b: Seq<u8>, n: int)
    requires
        0 <= n <= a.len(),
        n <= b.len(),
        a.take(n) == b.take(n),
    ensures
        byte_order(a, b) == byte_order(a.skip(n), b.skip(n)),
    decreases n,
{
    if n == 0 {
        assert(a.skip(0) =~= a);
        assert(b.skip(0) =~= b);
    } else {
        assert(a[0] == a.take(n)[0]);
        assert(b[0] == b.take(n)[0]);
        assert(a.skip(1).take(n - 1) =~= a.take(n).skip(1));
        assert(b.skip(1).take(n - 1) =~= b.take(n).skip(1));
        lemma_byte_order_common_prefix(a.skip(1), b.skip(1), n - 1);
        assert(a.skip(1).skip(n - 1) =~= a.skip(n));
        assert(b.skip(1).skip(n - 1) =~= b.skip(n));
    }
}

/// Byte strings are the same in the order exactly where they are equal.
pub proof fn lemma_byte_order_same(a: Seq<u8>, b: Seq<u8>)
    ensures
        byte_order(a, b) == ByteOrder::Same <==> a == b,
    decreases a.len(),
{
    if a.len() == 0 {
        if b.len() == 0 {
            assert(a =~= b);
        }
    } else if b.len() > 0 {
        lemma_byte_order_same(a.skip(1), b.skip(1));
        if a[0] == b[0] {
            if a.skip(1) == b.skip(1) {
                assert(a =~= seq![a[0]] + a.skip(1));
                assert(b =~= seq![b[0]] + b.skip(1));
            }
        }
    }
}

/// What comes before comes after when the two are exchanged.
pub proof fn lemma_byte_order_exchange(a: Seq<u8>, b: Seq<u8>)
    ensures
        byte_order(a, b) == ByteOrder::Before <==> byte_order(b, a) == ByteOrder::After,
    decreases a.len(),
{
    if a.len() > 0 && b.len() > 0 {
        lemma_byte_order_exchange(a.skip(1), b.skip(1));
    }
}

/// How the bytes of `a` stand to the bytes of `b`.
pub fn compare(a: &[u8], b: &[u8]) -> (order: ByteOrder)
    ensures
        order == byte_order(a@, b@),
{
    let mut i: usize = 0;
    while i < a.len() && i < b.len()
        invariant
            i <= a@.len(),
            i <= b@.len(),
            a@.take(i as int) == b@.take(i as int),
        decreases a@.len() - i,
    {
        proof {
            lemma_byte_order_common_prefix(a@, b@, i as int);
        }
        if a[i] < b[i] {
            return ByteOrder::Before;
        }
        if a[i] > b[i] {
            return ByteOrder::After;
        }
        assert(a@.take(i + 1) =~= a@.take(i as int).push(a@[i as int]));
        assert(b@.take(i + 1) =~= b@.take(i as int).push(b@[i as int]));
        i = i + 1;
    }
    proof {
        lemma_byte_order_common_prefix(a@, b@, i as int);
    }
    if i < b.len() {
        ByteOrder::Before
    } else if i < a.len() {
        ByteOrder::After
    } else {
        ByteOrder::Same
    }
}

} // verus!

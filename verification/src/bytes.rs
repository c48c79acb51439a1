//! Byte strings: copying, joining, cutting and combining them.

use vstd::prelude::*;
use vstd::slice::slice_subrange;
use vstd::slice::slice_to_vec;

verus! {

/// The sequence of `n` zero bytes.
pub open spec fn zeros(n: nat) -> Seq<u8> {
    Seq::new(n, |i: int| 0u8)
}

/// The bytewise exclusive or of `a` with the first `a.len()` bytes of `b`.
pub open spec fn xor_seq(a: Seq<u8>, b: Seq<u8>) -> Seq<u8>
    recommends
        a.len() <= b.len(),
{
    Seq::new(a.len(), |i: int| a[i] ^ b[i])
}

/// A fresh vector that holds the bytes of `s`.
pub fn copy_of(s: &[u8]) -> (out: Vec<u8>)
    ensures
        out@ == s@,
{
    slice_to_vec(s)
}

/// The bytes of `a` followed by the bytes of `b`.
pub fn join(a: &[u8], b: &[u8]) -> (out: Vec<u8>)
    ensures
        out@ == a@ + b@,
{
    let mut out: Vec<u8> = slice_to_vec(a);
    out.extend_from_slice(b);
    out
}

/// The bytes of `s` from position `from` up to, not including, `to`.
pub fn cut(s: &[u8], from: usize, to: usize) -> (out: Vec<u8>)
    requires
        from <= to <= s@.len(),
    ensures
        out@ == s@.subrange(from as int, to as int),
{
    slice_to_vec(slice_subrange(s, from, to))
}

/// `n` zero bytes.
pub fn zero_bytes(n: usize) -> (out: Vec<u8>)
    ensures
        out@ == zeros(n as nat),
{
    let mut out: Vec<u8> = Vec::new();
    let mut i: usize = 0;
    while i < n
        invariant
            i <= n,
            out@ == zeros(i as nat),
        decreases n - i,
    {
        out.push(0u8);
        i = i + 1;
        assert(out@ =~= zeros(i as nat));
    }
    out
}

/// Combines `a` bytewise with `pad` by exclusive or.
pub fn xor(a: &[u8], pad: &[u8]) -> (out: Vec<u8>)
    requires
        a@.len() <= pad@.len(),
    ensures
        out@ == xor_seq(a@, pad@),
{
    let mut out: Vec<u8> = Vec::new();
    let mut i: usize = 0;
    while i < a.len()
        invariant
            i <= a@.len(),
            a@.len() <= pad@.len(),
            out@ == xor_seq(a@.subrange(0, i as int), pad@),
        decreases a@.len() - i,
    {
        out.push(a[i] ^ pad[i]);
        i = i + 1;
        assert(out@ =~= xor_seq(a@.subrange(0, i as int), pad@));
    }
    assert(a@.subrange(0, i as int) =~= a@);
    out
}

/// Applying the same pad twice gives the bytes back.
pub proof fn lemma_xor_twice(a: Seq<u8>, pad: Seq<u8>)
    ensures
        xor_seq(xor_seq(a, pad), pad) == a,
{
    assert forall|i: int| 0 <= i < a.len() implies #[trigger] xor_seq(xor_seq(a, pad), pad)[i]
        == a[i] by {
        let x = a[i];
        let p = pad[i];
        assert((x ^ p) ^ p == x) by (bit_vector);
    }
    assert(xor_seq(xor_seq(a, pad), pad) =~= a);
}

/// The two-byte big-endian encoding of a length below 65536.
pub open spec fn i2osp2(n: nat) -> Seq<u8>
    recommends
        n <= 0xffff,
{
    seq![(n / 256) as u8, (n % 256) as u8]
}

/// The one-byte encoding of a length below 256.
pub open spec fn i2osp1(n: nat) -> Seq<u8>
    recommends
        n <= 0xff,
{
    seq![n as u8]
}

/// A byte string headed by its length in two bytes.
pub open spec fn framed(s: Seq<u8>) -> Seq<u8>
    recommends
        s.len() <= 0xffff,
{
    i2osp2(s.len()) + s
}

/// The two-byte big-endian encoding of `n`.
pub fn length_bytes(n: usize) -> (out: Vec<u8>)
    requires
        n <= 0xffff,
    ensures
        out@ == i2osp2(n as nat),
{
    let hi: u8 = (n / 256) as u8;
    let lo: u8 = (n % 256) as u8;
    let mut out: Vec<u8> = Vec::new();
    out.push(hi);
    out.push(lo);
    assert(out@ =~= i2osp2(n as nat));
    out
}

/// The one-byte encoding of `n`.
pub fn length_byte(n: usize) -> (out: Vec<u8>)
    requires
        n <= 0xff,
    ensures
        out@ == i2osp1(n as nat),
{
    let b: u8 = n as u8;
    let mut out: Vec<u8> = Vec::new();
    out.push(b);
    assert(out@ =~= i2osp1(n as nat));
    out
}

/// `s` headed by its length in two bytes.
pub fn frame(s: &[u8]) -> (out: Vec<u8>)
    requires
        s@.len() <= 0xffff,
    ensures
        out@ == framed(s@),
{
    let head = length_bytes(s.len());
    join(head.as_slice(), s)
}

/// Whether two byte strings are the same. The time this takes depends on
/// the bytes: it is meant for public values.
pub fn same_bytes(a: &[u8], b: &[u8]) -> (same: bool)
    ensures
        same == (a@ == b@),
{
    if a.len() != b.len() {
        return false;
    }
    let mut i: usize = 0;
    while i < a.len()
        invariant
            i <= a@.len(),
            a@.len() == b@.len(),
            a@.subrange(0, i as int) == b@.subrange(0, i as int),
        decreases a@.len() - i,
    {
        if a[i] != b[i] {
            assert(a@[i as int] != b@[i as int]);
            return false;
        }
        i = i + 1;
        assert(a@.subrange(0, i as int) =~= a@.subrange(0, i - 1).push(a@[i - 1]));
        assert(b@.subrange(0, i as int) =~= b@.subrange(0, i - 1).push(b@[i - 1]));
    }
    assert(a@.subrange(0, i as int) =~= a@);
    assert(b@.subrange(0, i as int) =~= b@);
    true
}

} // verus!

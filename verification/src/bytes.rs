//! Small operations on byte buffers: fixed-size windows, copies and zero tests.

use vstd::prelude::*;

verus! {

/// The sequence of `n` zero bytes.
pub open spec fn zeros(n: nat) -> Seq<u8> {
    Seq::new(n, |i: int| 0u8)
}

/// Whether every byte of `s` is zero.
pub open spec fn all_zero(s: Seq<u8>) -> bool {
    forall|i: int| 0 <= i < s.len() ==> s[i] == 0u8
}

/// A sequence holds zero bytes only exactly when it is the sequence of that
/// many zero bytes.
pub proof fn lemma_all_zero(s: Seq<u8>)
    ensures
        all_zero(s) <==> s == zeros(s.len()),
{
    if all_zero(s) {
        assert(s =~= zeros(s.len()));
    }
}

/// Copies the `N` bytes of `src` that start at `at` into an array.
pub fn window<const N: usize>(src: &[u8], at: usize) -> (out: [u8; N])
    requires
        at + N <= src@.len(),
    ensures
        out@ == src@.subrange(at as int, at + N),
{
    let mut out: [u8; N] = [0u8; N];
    let len: usize = src.len();
    let mut i: usize = 0;
    while i < N
        invariant
            i <= N,
            at + N <= len,
            len == src@.len(),
            out@.len() == N,
            forall|j: int| 0 <= j < i ==> out@[j] == src@[at + j],
        decreases N - i,
    {
        out[i] = src[at + i];
        i += 1;
    }
    assert(out@ =~= src@.subrange(at as int, at + N));
    out
}

/// Overwrites the start of `dst` with `src` and leaves the rest as it was.
pub fn store<const N: usize>(dst: &mut [u8; N], src: &[u8])
    requires
        src@.len() <= N,
    ensures
        final(dst)@ == src@ + old(dst)@.subrange(src@.len() as int, N as int),
{
    let n: usize = src.len();
    let mut i: usize = 0;
    while i < n
        invariant
            i <= n,
            n == src@.len(),
            n <= N,
            dst@.len() == N,
            forall|j: int| 0 <= j < i ==> dst@[j] == src@[j],
            forall|j: int| i <= j < N ==> dst@[j] == old(dst)@[j],
        decreases n - i,
    {
        dst[i] = src[i];
        i += 1;
    }
    assert(dst@ =~= src@ + old(dst)@.subrange(src@.len() as int, N as int));
}

/// Whether every byte of `s` is zero. The whole slice is read whatever it
/// holds.
pub fn is_zero(s: &[u8]) -> (z: bool)
    ensures
        z == all_zero(s@),
{
    let mut acc: u8 = 0;
    let mut i: usize = 0;
    while i < s.len()
        invariant
            i <= s@.len(),
            (acc == 0u8) == (forall|j: int| 0 <= j < i ==> s@[j] == 0u8),
        decreases s@.len() - i,
    {
        let b: u8 = s[i];
        proof {
            assert((acc | b) == 0u8 <==> (acc == 0u8 && b == 0u8)) by (bit_vector);
        }
        acc = acc | b;
        i += 1;
    }
    acc == 0
}

} // verus!

//! Small verified helpers on byte strings.

use vstd::prelude::*;

verus! {

/// Copies the first `N` bytes of `bytes` into an array.
pub fn head_array<const N: usize>(bytes: &[u8]) -> (head: [u8; N])
    requires
        bytes@.len() >= N,
    ensures
        head@ == bytes@.subrange(0, N as int),
{
    let mut head = [0u8; N];
    let mut i: usize = 0;
    while i < N
        invariant
            i <= N,
            bytes@.len() >= N,
            forall|j: int| 0 <= j < i ==> head@[j] == bytes@[j],
        decreases N - i,
    {
        head[i] = bytes[i];
        i += 1;
    }
    assert(head@ =~= bytes@.subrange(0, N as int));
    head
}

/// Whether two byte strings are equal, found without stopping at the first
/// difference.
pub fn bytes_equal(a: &[u8], b: &[u8]) -> (same: bool)
    ensures
        same == (a@ == b@),
{
    if a.len() != b.len() {
        return false;
    }
    let mut same = true;
    let mut i: usize = 0;
    while i < a.len()
        invariant
            i <= a@.len(),
            a@.len() == b@.len(),
            same <==> (forall|j: int| 0 <= j < i ==> a@[j] == b@[j]),
        decreases a@.len() - i,
    {
        same = same && a[i] == b[i];
        i += 1;
    }
    proof {
        if same {
            assert(a@ =~= b@);
        }
    }
    same
}

/// Copies an array of bytes into a vector.
pub fn to_vec<const N: usize>(bytes: &[u8; N]) -> (out: Vec<u8>)
    ensures
        out@ == bytes@,
{
    let mut out: Vec<u8> = Vec::new();
    let mut i: usize = 0;
    while i < N
        invariant
            i <= N,
            out@ == bytes@.subrange(0, i as int),
        decreases N - i,
    {
        out.push(bytes[i]);
        assert(out@ =~= bytes@.subrange(0, i + 1));
        i += 1;
    }
    assert(bytes@.subrange(0, N as int) =~= bytes@);
    out
}

} // verus!

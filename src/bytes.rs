use vstd::prelude::*;

verus! {

/// Appends `b` to `out`.
pub fn append_bytes(out: &mut Vec<u8>, b: &[u8])
    ensures
        final(out)@ == old(out)@ + b@,
{
    let ghost start = out@;
    let mut i: usize = 0;
    while i < b.len()
        invariant
            i <= b@.len(),
            out@ == start + b@.subrange(0, i as int),
        decreases b@.len() - i,
    {
        out.push(b[i]);
        i = i + 1;
        assert(b@.subrange(0, i as int) =~= b@.subrange(0, i - 1) + seq![b@[i - 1]]);
    }
    assert(b@.subrange(0, i as int) =~= b@);
}

/// The `N` bytes of `s` from `off` on.
pub fn read_array<const N: usize>(s: &[u8], off: usize) -> (r: [u8; N])
    requires
        off + N <= s@.len(),
    ensures
        r@ == s@.subrange(off as int, off + N),
{
    let n: usize = s.len();
    let mut r: [u8; N] = [0u8; N];
    let mut i: usize = 0;
    while i < N
        invariant
            i <= N,
            off + N <= s@.len(),
            n == s@.len(),
            r@.len() == N,
            forall|j: int| 0 <= j < i ==> r@[j] == s@[off + j],
        decreases N - i,
    {
        r[i] = s[off + i];
        i = i + 1;
    }
    assert(r@ =~= s@.subrange(off as int, off + N));
    r
}

/// Whether two 32-byte keys are equal.
pub fn keys_equal(a: &[u8; 32], b: &[u8; 32]) -> (r: bool)
    ensures
        r == (a@ == b@),
{
    let mut i: usize = 0;
    while i < 32
        invariant
            i <= 32,
            a@.len() == 32,
            b@.len() == 32,
            forall|j: int| 0 <= j < i ==> a@[j] == b@[j],
        decreases 32 - i,
    {
        if a[i] != b[i] {
            return false;
        }
        i = i + 1;
    }
    assert(a@ =~= b@);
    true
}

} // verus!

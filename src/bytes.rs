use vstd::prelude::*;

verus! {

/// A fixed 32-byte value: a pre-hash, a nonce, or a digest.
pub type Hash256 = [u8; 32];

/// The unsigned integer that `s` spells when its first byte is the least significant.
pub open spec fn le_value(s: Seq<u8>) -> nat
    decreases s.len(),
{
    if s.len() == 0 {
        0
    } else {
        s[0] as nat + 256 * le_value(s.subrange(1, s.len() as int))
    }
}

/// The unsigned integer that `s` spells when its first byte is the most significant.
pub open spec fn be_value(s: Seq<u8>) -> nat
    decreases s.len(),
{
    if s.len() == 0 {
        0
    } else {
        be_value(s.subrange(0, s.len() - 1)) * 256 + s[s.len() - 1] as nat
    }
}

/// Appends the 32 bytes of `b` to `out`.
pub(crate) fn append_hash(out: &mut Vec<u8>, b: &Hash256)
    ensures
        final(out)@ == old(out)@ + b@,
{
    let ghost start = out@;
    let mut i: usize = 0;
    while i < 32
        invariant
            0 <= i <= 32,
            out@ == start + b@.subrange(0, i as int),
        decreases 32 - i,
    {
        out.push(b[i]);
        i = i + 1;
        assert(out@ =~= start + b@.subrange(0, i as int));
    }
    assert(b@.subrange(0, 32) =~= b@);
}

/// Copies 32 bytes of `s`, starting at `at`, into an array.
pub(crate) fn read_hash(s: &[u8], at: usize) -> (r: Hash256)
    requires
        at + 32 <= s@.len(),
    ensures
        r@ == s@.subrange(at as int, at + 32),
{
    let n: usize = s.len();
    let mut r: Hash256 = [0u8; 32];
    let mut i: usize = 0;
    while i < 32
        invariant
            0 <= i <= 32,
            n == s@.len(),
            at + 32 <= n,
            forall|j: int| 0 <= j < i ==> r@[j] == s@[at + j],
        decreases 32 - i,
    {
        r[i] = s[at + i];
        i = i + 1;
    }
    assert(r@ =~= s@.subrange(at as int, at + 32));
    r
}

/// Whether the two 32-byte values are the same.
pub(crate) fn hash_eq(a: &Hash256, b: &Hash256) -> (r: bool)
    ensures
        r == (a@ == b@),
{
    let mut i: usize = 0;
    while i < 32
        invariant
            0 <= i <= 32,
            forall|j: int| 0 <= j < i ==> a@[j] == b@[j],
        decreases 32 - i,
    {
        if a[i] != b[i] {
            return false;
        }
        i = i + 1;
    }
    assert(a@ =~= b@);
    true
}

} // verus!

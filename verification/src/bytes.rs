//! Byte-level helpers: comparison of 32-byte addresses and little-endian
//! encoding of integers.

use vstd::prelude::*;

verus! {

/// The `n` low-order bytes of `x`, least significant first.
pub open spec fn le_bytes(x: nat, n: nat) -> Seq<u8>
    decreases n,
{
    if n == 0 {
        Seq::empty()
    } else {
        seq![(x % 256) as u8] + le_bytes(x / 256, (n - 1) as nat)
    }
}

/// The eight bytes of `u64::to_le_bytes`.
pub open spec fn u64_le(x: u64) -> Seq<u8> {
    le_bytes(x as nat, 8)
}

/// Returns `x.to_le_bytes()` as a vector.
pub fn u64_to_le_bytes(x: u64) -> (out: Vec<u8>)
    ensures
        out@ == u64_le(x),
{
    let mut out: Vec<u8> = Vec::new();
    let mut v: u64 = x;
    let mut i: u64 = 0;
    while i < 8
        invariant
            i <= 8,
            out@ + le_bytes(v as nat, (8 - i) as nat) == le_bytes(x as nat, 8),
        decreases 8 - i,
    {
        let ghost old_out = out@;
        assert(le_bytes(v as nat, (8 - i) as nat) == seq![(v % 256) as u8] + le_bytes(
            (v / 256) as nat,
            (8 - i - 1) as nat,
        ));
        out.push((v % 256) as u8);
        assert(out@ == old_out + seq![(v % 256) as u8]);
        assert(out@ + le_bytes((v / 256) as nat, (8 - (i + 1)) as nat) =~= old_out + (seq![
            (v % 256) as u8,
        ] + le_bytes((v / 256) as nat, (8 - i - 1) as nat)));
        v = v / 256;
        i = i + 1;
    }
    assert(le_bytes(v as nat, 0) =~= Seq::<u8>::empty());
    assert(out@ + Seq::<u8>::empty() =~= out@);
    out
}

/// Returns whether two 32-byte addresses are equal.
pub fn same_address(a: &[u8; 32], b: &[u8; 32]) -> (eq: bool)
    ensures
        eq == (a@ == b@),
{
    let mut i: usize = 0;
    while i < 32
        invariant
            i <= 32,
            a@.len() == 32,
            b@.len() == 32,
            forall|j: int| 0 <= j < i ==> a@[j] == b@[j],
        decreases 32 - i,
    {
        if a[i] != b[i] {
            assert(a@[i as int] != b@[i as int]);
            return false;
        }
        i = i + 1;
    }
    assert(a@ =~= b@);
    true
}

} // verus!

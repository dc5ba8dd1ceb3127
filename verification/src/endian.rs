//! Big-endian encoding of 64-bit length fields.

use vstd::prelude::*;

verus! {

/// The eight big-endian bytes of a 64-bit value, most significant byte first.
pub open spec fn u64_to_be(x: u64) -> Seq<u8> {
    seq![
        ((x >> 56) & 0xff) as u8,
        ((x >> 48) & 0xff) as u8,
        ((x >> 40) & 0xff) as u8,
        ((x >> 32) & 0xff) as u8,
        ((x >> 24) & 0xff) as u8,
        ((x >> 16) & 0xff) as u8,
        ((x >> 8) & 0xff) as u8,
        (x & 0xff) as u8,
    ]
}

/// The 64-bit value that eight bytes spell in big-endian order.
pub open spec fn u64_from_be(s: Seq<u8>) -> u64
    recommends
        s.len() == 8,
{
    (((s[0] as u64) << 56) | ((s[1] as u64) << 48) | ((s[2] as u64) << 40)
        | ((s[3] as u64) << 32) | ((s[4] as u64) << 24) | ((s[5] as u64) << 16)
        | ((s[6] as u64) << 8) | (s[7] as u64)) as u64
}

/// Reading back the eight bytes written for `x` yields `x` again.
pub proof fn lemma_u64_be_round_trip(x: u64)
    ensures
        u64_from_be(u64_to_be(x)) == x,
{
    assert((((((x >> 56) & 0xff) as u8 as u64) << 56) | ((((x >> 48) & 0xff) as u8 as u64) << 48)
        | ((((x >> 40) & 0xff) as u8 as u64) << 40) | ((((x >> 32) & 0xff) as u8 as u64) << 32)
        | ((((x >> 24) & 0xff) as u8 as u64) << 24) | ((((x >> 16) & 0xff) as u8 as u64) << 16)
        | ((((x >> 8) & 0xff) as u8 as u64) << 8) | (((x & 0xff) as u8) as u64)) as u64 == x)
        by (bit_vector);
}

/// Reads the eight bytes at `off` as a big-endian 64-bit value.
pub fn read_u64_be(s: &[u8], off: usize) -> (x: u64)
    requires
        off + 8 <= s@.len(),
    ensures
        x == u64_from_be(s@.subrange(off as int, off as int + 8)),
{
    let x: u64 = ((s[off] as u64) << 56) | ((s[off + 1] as u64) << 48)
        | ((s[off + 2] as u64) << 40) | ((s[off + 3] as u64) << 32)
        | ((s[off + 4] as u64) << 24) | ((s[off + 5] as u64) << 16)
        | ((s[off + 6] as u64) << 8) | (s[off + 7] as u64);
    proof {
        let sub = s@.subrange(off as int, off as int + 8);
        assert(forall|k: int| 0 <= k < 8 ==> sub[k] == s@[off + k]);
    }
    x
}

/// Appends the eight big-endian bytes of `x` to `out`.
pub fn push_u64_be(out: &mut Vec<u8>, x: u64)
    ensures
        final(out)@ == old(out)@ + u64_to_be(x),
{
    out.push(((x >> 56) & 0xff) as u8);
    out.push(((x >> 48) & 0xff) as u8);
    out.push(((x >> 40) & 0xff) as u8);
    out.push(((x >> 32) & 0xff) as u8);
    out.push(((x >> 24) & 0xff) as u8);
    out.push(((x >> 16) & 0xff) as u8);
    out.push(((x >> 8) & 0xff) as u8);
    out.push((x & 0xff) as u8);
    proof {
        assert(out@ =~= old(out)@ + u64_to_be(x));
    }
}

} // verus!

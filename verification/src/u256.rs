//! 256-bit unsigned integers: the key and value type of a contract's
//! persistent storage slots, held as four 64-bit limbs.

use vstd::prelude::*;
use vstd::bytes::{
    lemma_auto_spec_u64_to_from_le_bytes, spec_u64_from_le_bytes, spec_u64_to_le_bytes,
    u64_from_le_bytes, u64_to_le_bytes,
};
use vstd::slice::slice_subrange;

verus! {

/// A 256-bit unsigned integer, least significant limb first.
#[derive(Clone, Copy, PartialEq, Eq, Structural, Debug)]
pub struct U256 {
    pub w0: u64,
    pub w1: u64,
    pub w2: u64,
    pub w3: u64,
}

impl U256 {
    /// The value as an unbounded integer.
    pub open spec fn as_nat(self) -> nat {
        self.w0 as nat + self.w1 as nat * 0x10000000000000000
            + self.w2 as nat * 0x100000000000000000000000000000000
            + self.w3 as nat * 0x1000000000000000000000000000000000000000000000000
    }

    /// Widen a 64-bit value.
    pub fn from_u64(x: u64) -> (r: U256)
        ensures
            r == (U256 { w0: x, w1: 0, w2: 0, w3: 0 }),
            r.as_nat() == x,
    {
        U256 { w0: x, w1: 0, w2: 0, w3: 0 }
    }
}

/// The 32-byte serialized form: the four limbs in significance order, each
/// as eight little-endian bytes.
pub open spec fn spec_u256_to_bytes(x: U256) -> Seq<u8> {
    spec_u64_to_le_bytes(x.w0) + spec_u64_to_le_bytes(x.w1) + spec_u64_to_le_bytes(x.w2)
        + spec_u64_to_le_bytes(x.w3)
}

/// Read a value back from its 32-byte serialized form.
pub open spec fn spec_u256_from_bytes(s: Seq<u8>) -> U256
    recommends
        s.len() == 32,
{
    U256 {
        w0: spec_u64_from_le_bytes(s.subrange(0, 8)),
        w1: spec_u64_from_le_bytes(s.subrange(8, 16)),
        w2: spec_u64_from_le_bytes(s.subrange(16, 24)),
        w3: spec_u64_from_le_bytes(s.subrange(24, 32)),
    }
}

/// Serialization of a 256-bit value is 32 bytes long and deserializes back
/// to the same value.
pub proof fn lemma_u256_bytes_round_trip(x: U256)
    ensures
        spec_u256_to_bytes(x).len() == 32,
        spec_u256_from_bytes(spec_u256_to_bytes(x)) == x,
{
    lemma_auto_spec_u64_to_from_le_bytes();
    let b = spec_u256_to_bytes(x);
    assert(b.subrange(0, 8) =~= spec_u64_to_le_bytes(x.w0));
    assert(b.subrange(8, 16) =~= spec_u64_to_le_bytes(x.w1));
    assert(b.subrange(16, 24) =~= spec_u64_to_le_bytes(x.w2));
    assert(b.subrange(24, 32) =~= spec_u64_to_le_bytes(x.w3));
}

/// Serialize to the 32-byte form.
pub fn u256_to_bytes(x: &U256) -> (r: Vec<u8>)
    ensures
        r@ == spec_u256_to_bytes(*x),
        r@.len() == 32,
{
    proof {
        lemma_u256_bytes_round_trip(*x);
    }
    let mut r = u64_to_le_bytes(x.w0);
    let mut b1 = u64_to_le_bytes(x.w1);
    let mut b2 = u64_to_le_bytes(x.w2);
    let mut b3 = u64_to_le_bytes(x.w3);
    r.append(&mut b1);
    r.append(&mut b2);
    r.append(&mut b3);
    r
}

/// Deserialize from the 32-byte form.
pub fn u256_from_bytes(s: &[u8]) -> (r: U256)
    requires
        s@.len() == 32,
    ensures
        r == spec_u256_from_bytes(s@),
{
    let w0 = u64_from_le_bytes(slice_subrange(s, 0, 8));
    let w1 = u64_from_le_bytes(slice_subrange(s, 8, 16));
    let w2 = u64_from_le_bytes(slice_subrange(s, 16, 24));
    let w3 = u64_from_le_bytes(slice_subrange(s, 24, 32));
    U256 { w0, w1, w2, w3 }
}

} // verus!

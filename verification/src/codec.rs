//! The wire format of the host message-call boundary: parameter and result
//! records in a compact, order-significant binary encoding, fields
//! serialized positionally.
//!
//! A record is a one-element array item followed by a byte-string item
//! whose header carries the length in its shortest form. Items up to
//! 65535 bytes are representable, ample room for the 24576-byte code cap.

use vstd::prelude::*;
use vstd::arithmetic::div_mod::lemma_fundamental_div_mod;
use vstd::slice::{slice_subrange, slice_to_vec};
use crate::u256::{
    lemma_u256_bytes_round_trip, spec_u256_from_bytes, spec_u256_to_bytes, u256_from_bytes,
    u256_to_bytes, U256,
};

verus! {

/// Header byte of a one-element array item.
pub const ARRAY1_HEADER: u8 = 0x81;

/// The deployment parameters: the program to deploy.
#[derive(Debug)]
pub struct ConstructorParams {
    /// The raw bytecode to run as the constructor.
    pub bytecode: Vec<u8>,
}

/// The storage-read parameters: the slot key to inspect.
#[derive(Clone, Copy, PartialEq, Eq, Structural, Debug)]
pub struct GetStorageAtParams {
    /// The 256-bit storage slot key.
    pub storage_key: U256,
}

/// A byte-string item: the length in its shortest header form, then the
/// bytes. Only lengths below 65536 are representable.
pub open spec fn spec_encode_bytestr(b: Seq<u8>) -> Seq<u8>
    recommends
        b.len() < 65536,
{
    if b.len() < 24 {
        seq![(0x40 + b.len()) as u8] + b
    } else if b.len() < 256 {
        seq![0x58u8, b.len() as u8] + b
    } else {
        seq![0x59u8, (b.len() / 256) as u8, (b.len() % 256) as u8] + b
    }
}

/// Read a byte-string item that spans the whole input; a header that is
/// not in shortest form, or a length mismatch, is rejected.
pub open spec fn spec_decode_bytestr(s: Seq<u8>) -> Option<Seq<u8>> {
    if s.len() >= 1 && 0x40 <= s[0] < 0x58 {
        if s.len() == 1 + (s[0] - 0x40) {
            Some(s.skip(1))
        } else {
            None
        }
    } else if s.len() >= 2 && s[0] == 0x58 {
        if s[1] >= 24 && s.len() == 2 + s[1] {
            Some(s.skip(2))
        } else {
            None
        }
    } else if s.len() >= 3 && s[0] == 0x59 {
        if s[1] as int * 256 + s[2] as int >= 256 && s.len() == 3 + s[1] as int * 256
            + s[2] as int {
            Some(s.skip(3))
        } else {
            None
        }
    } else {
        None
    }
}

/// Decoding a byte-string item recovers exactly the bytes it encodes.
pub proof fn lemma_bytestr_round_trip(b: Seq<u8>)
    requires
        b.len() < 65536,
    ensures
        spec_decode_bytestr(spec_encode_bytestr(b)) == Some(b),
{
    let e = spec_encode_bytestr(b);
    if b.len() < 24 {
        assert(e.skip(1) =~= b);
    } else if b.len() < 256 {
        assert(e.skip(2) =~= b);
    } else {
        lemma_fundamental_div_mod(b.len() as int, 256);
        assert(e.skip(3) =~= b);
    }
}

/// Serialize a byte-string item, or nothing if the length has no header
/// form.
pub fn encode_bytestr(b: &Vec<u8>) -> (r: Option<Vec<u8>>)
    ensures
        match r {
            Some(v) => b@.len() < 65536 && v@ == spec_encode_bytestr(b@),
            None => b@.len() >= 65536,
        },
{
    let n = b.len();
    if n >= 65536 {
        return None;
    }
    let mut v: Vec<u8> = Vec::new();
    if n < 24 {
        v.push(0x40 + n as u8);
    } else if n < 256 {
        v.push(0x58);
        v.push(n as u8);
    } else {
        v.push(0x59);
        v.push((n / 256) as u8);
        v.push((n % 256) as u8);
    }
    let mut body = slice_to_vec(b.as_slice());
    v.append(&mut body);
    proof {
        assert(v@ =~= spec_encode_bytestr(b@));
    }
    Some(v)
}

/// Parse a byte-string item spanning the whole input.
pub fn decode_bytestr(s: &[u8]) -> (r: Option<Vec<u8>>)
    ensures
        match r {
            Some(v) => spec_decode_bytestr(s@) == Some(v@),
            None => spec_decode_bytestr(s@) is None,
        },
{
    if s.len() >= 1 {
        let h = *vstd::slice::slice_index_get(s, 0);
        if 0x40 <= h && h < 0x58 {
            let n = (h - 0x40) as usize;
            if s.len() == 1 + n {
                let body = slice_to_vec(slice_subrange(s, 1, s.len()));
                assert(body@ =~= s@.skip(1));
                return Some(body);
            }
            return None;
        }
        if h == 0x58 && s.len() >= 2 {
            let n = *vstd::slice::slice_index_get(s, 1);
            if n >= 24 && s.len() == 2 + n as usize {
                let body = slice_to_vec(slice_subrange(s, 2, s.len()));
                assert(body@ =~= s@.skip(2));
                return Some(body);
            }
            return None;
        }
        if h == 0x59 && s.len() >= 3 {
            let hi = *vstd::slice::slice_index_get(s, 1);
            let lo = *vstd::slice::slice_index_get(s, 2);
            let n: usize = hi as usize * 256 + lo as usize;
            if n >= 256 && s.len() == 3 + n {
                let body = slice_to_vec(slice_subrange(s, 3, s.len()));
                assert(body@ =~= s@.skip(3));
                return Some(body);
            }
            return None;
        }
    }
    None
}

/// The wire form of the deployment parameters: a one-element record
/// holding the bytecode as a byte string.
pub open spec fn spec_encode_deploy_params(b: Seq<u8>) -> Seq<u8>
    recommends
        b.len() < 65536,
{
    seq![ARRAY1_HEADER] + spec_encode_bytestr(b)
}

/// Read deployment parameters back from the wire.
pub open spec fn spec_decode_deploy_params(s: Seq<u8>) -> Option<Seq<u8>> {
    if s.len() >= 1 && s[0] == ARRAY1_HEADER {
        spec_decode_bytestr(s.skip(1))
    } else {
        None
    }
}

/// The wire form of the storage-read parameters: a one-element record
/// holding the 32-byte key as a byte string.
pub open spec fn spec_encode_storage_params(k: U256) -> Seq<u8> {
    seq![ARRAY1_HEADER] + spec_encode_bytestr(spec_u256_to_bytes(k))
}

/// Read storage-read parameters back from the wire; the key must be
/// exactly 32 bytes.
pub open spec fn spec_decode_storage_params(s: Seq<u8>) -> Option<U256> {
    if s.len() >= 1 && s[0] == ARRAY1_HEADER {
        match spec_decode_bytestr(s.skip(1)) {
            Some(b) => if b.len() == 32 {
                Some(spec_u256_from_bytes(b))
            } else {
                None
            },
            None => None,
        }
    } else {
        None
    }
}

/// Encoding then decoding the deployment parameters recovers the same
/// bytecode.
pub proof fn lemma_deploy_params_round_trip(b: Seq<u8>)
    requires
        b.len() < 65536,
    ensures
        spec_decode_deploy_params(spec_encode_deploy_params(b)) == Some(b),
{
    lemma_bytestr_round_trip(b);
    assert(spec_encode_deploy_params(b).skip(1) =~= spec_encode_bytestr(b));
}

/// Encoding then decoding the storage-read parameters recovers the same
/// key.
pub proof fn lemma_storage_params_round_trip(k: U256)
    ensures
        spec_decode_storage_params(spec_encode_storage_params(k)) == Some(k),
{
    lemma_u256_bytes_round_trip(k);
    lemma_bytestr_round_trip(spec_u256_to_bytes(k));
    assert(spec_encode_storage_params(k).skip(1) =~= spec_encode_bytestr(spec_u256_to_bytes(k)));
}

/// Serialize deployment parameters, or nothing if the bytecode is too
/// long for the wire form.
pub fn encode_deploy_params(p: &ConstructorParams) -> (r: Option<Vec<u8>>)
    ensures
        match r {
            Some(v) => p.bytecode@.len() < 65536 && v@ == spec_encode_deploy_params(p.bytecode@),
            None => p.bytecode@.len() >= 65536,
        },
{
    match encode_bytestr(&p.bytecode) {
        Some(body) => {
            let mut v: Vec<u8> = Vec::new();
            v.push(ARRAY1_HEADER);
            let mut body = body;
            v.append(&mut body);
            proof {
                assert(v@ =~= spec_encode_deploy_params(p.bytecode@));
            }
            Some(v)
        },
        None => None,
    }
}

/// Parse deployment parameters from the wire.
pub fn decode_deploy_params(s: &Vec<u8>) -> (r: Option<ConstructorParams>)
    ensures
        match r {
            Some(p) => spec_decode_deploy_params(s@) == Some(p.bytecode@),
            None => spec_decode_deploy_params(s@) is None,
        },
{
    if s.len() >= 1 && s[0] == ARRAY1_HEADER {
        let tail = slice_subrange(s.as_slice(), 1, s.len());
        assert(tail@ =~= s@.skip(1));
        match decode_bytestr(tail) {
            Some(b) => Some(ConstructorParams { bytecode: b }),
            None => None,
        }
    } else {
        None
    }
}

/// Serialize storage-read parameters; a 32-byte key always has a wire
/// form.
pub fn encode_storage_params(p: &GetStorageAtParams) -> (r: Vec<u8>)
    ensures
        r@ == spec_encode_storage_params(p.storage_key),
{
    let key_bytes = u256_to_bytes(&p.storage_key);
    let body = encode_bytestr(&key_bytes);
    let mut v: Vec<u8> = Vec::new();
    v.push(ARRAY1_HEADER);
    match body {
        Some(mut b) => {
            v.append(&mut b);
        },
        None => {
            assert(false);
        },
    }
    proof {
        assert(v@ =~= spec_encode_storage_params(p.storage_key));
    }
    v
}

/// Parse storage-read parameters from the wire.
pub fn decode_storage_params(s: &Vec<u8>) -> (r: Option<GetStorageAtParams>)
    ensures
        match r {
            Some(p) => spec_decode_storage_params(s@) == Some(p.storage_key),
            None => spec_decode_storage_params(s@) is None,
        },
{
    if s.len() >= 1 && s[0] == ARRAY1_HEADER {
        let tail = slice_subrange(s.as_slice(), 1, s.len());
        assert(tail@ =~= s@.skip(1));
        match decode_bytestr(tail) {
            Some(b) => {
                if b.len() == 32 {
                    Some(GetStorageAtParams { storage_key: u256_from_bytes(b.as_slice()) })
                } else {
                    None
                }
            },
            None => None,
        }
    } else {
        None
    }
}

/// The wire form of a returned content reference: its bytes as a
/// byte-string item.
pub open spec fn spec_encode_cid_result(c: Seq<u8>) -> Seq<u8>
    recommends
        c.len() < 65536,
{
    spec_encode_bytestr(c)
}

/// The wire form of a returned 256-bit storage value.
pub open spec fn spec_encode_storage_result(v: U256) -> Seq<u8> {
    spec_encode_bytestr(spec_u256_to_bytes(v))
}

/// Serialize a returned content reference, or nothing if it is too long
/// for the wire form.
pub fn encode_cid_result(c: &Vec<u8>) -> (r: Option<Vec<u8>>)
    ensures
        match r {
            Some(v) => c@.len() < 65536 && v@ == spec_encode_cid_result(c@),
            None => c@.len() >= 65536,
        },
{
    encode_bytestr(c)
}

/// Serialize a returned 256-bit storage value.
pub fn encode_storage_result(v: &U256) -> (r: Vec<u8>)
    ensures
        r@ == spec_encode_storage_result(*v),
{
    let key_bytes = u256_to_bytes(v);
    match encode_bytestr(&key_bytes) {
        Some(out) => out,
        None => {
            assert(false);
            Vec::new()
        },
    }
}

} // verus!

//! The per-contract storage trie: a key-addressed map from 256-bit slot
//! keys to 256-bit values, its process-wide configuration, and the
//! serialized snapshot form its root reference addresses.
//!
//! The trie is held as an association list in which the most recent binding
//! for a key stands first; its meaning is the first-match map. A flush
//! serializes the list into a snapshot blob, and a load reads one back, so
//! a root reference pins the exact contents it was flushed from.

use vstd::prelude::*;
use vstd::slice::slice_subrange;
use crate::u256::{
    lemma_u256_bytes_round_trip, spec_u256_from_bytes, spec_u256_to_bytes, u256_from_bytes,
    u256_to_bytes, U256,
};

verus! {

/// The immutable parameter set shaping every per-contract trie. Writer and
/// reader must use the same configuration or lookups are corrupted.
#[derive(Clone, Copy, PartialEq, Eq, Structural, Debug)]
pub struct TrieConfig {
    /// Compact routing for long runs of structurally similar keys, matching
    /// the contiguous key patterns compilers emit for arrays.
    pub use_extensions: bool,
    /// The first levels carry no leaf data and exist purely for routing;
    /// the earliest-declared contract variables stay cheap to reach.
    pub min_data_depth: u32,
    /// Each level branches 32-way.
    pub bit_width: u32,
    /// Maximum width of an inline array node.
    pub max_array_width: u32,
}

/// The one shared configuration value, identical at every open and load.
pub open spec fn spec_shared_config() -> TrieConfig {
    TrieConfig { use_extensions: true, min_data_depth: 2, bit_width: 5, max_array_width: 3 }
}

/// Build the shared configuration value.
pub fn shared_config() -> (r: TrieConfig)
    ensures
        r == spec_shared_config(),
{
    TrieConfig { use_extensions: true, min_data_depth: 2, bit_width: 5, max_array_width: 3 }
}

/// The first-match meaning of an association list: the earliest binding of
/// a key is the one that counts.
pub open spec fn slots_map(s: Seq<(U256, U256)>) -> Map<U256, U256>
    decreases s.len(),
{
    if s.len() == 0 {
        Map::empty()
    } else {
        slots_map(s.skip(1)).insert(s[0].0, s[0].1)
    }
}

/// Prepending a binding overrides whatever the list said of its key.
pub proof fn lemma_slots_map_prepend(p: (U256, U256), s: Seq<(U256, U256)>)
    ensures
        slots_map(seq![p] + s) == slots_map(s).insert(p.0, p.1),
{
    let t = seq![p] + s;
    assert(t.skip(1) =~= s);
    assert(t[0] == p);
}

/// A key bound nowhere in the list is absent from its map.
pub proof fn lemma_slots_map_no_key(s: Seq<(U256, U256)>, k: U256)
    requires
        forall|j: int| 0 <= j < s.len() ==> s[j].0 != k,
    ensures
        !slots_map(s).contains_key(k),
    decreases s.len(),
{
    if s.len() > 0 {
        assert(forall|j: int| 0 <= j < s.skip(1).len() ==> s.skip(1)[j] == s[j + 1]);
        lemma_slots_map_no_key(s.skip(1), k);
    }
}

/// The earliest binding of a key gives its value in the map.
pub proof fn lemma_slots_map_first_match(s: Seq<(U256, U256)>, i: int, k: U256)
    requires
        0 <= i < s.len(),
        s[i].0 == k,
        forall|j: int| 0 <= j < i ==> s[j].0 != k,
    ensures
        slots_map(s).contains_key(k),
        slots_map(s)[k] == s[i].1,
    decreases i,
{
    if i > 0 {
        assert(forall|j: int| 0 <= j < s.skip(1).len() ==> s.skip(1)[j] == s[j + 1]);
        lemma_slots_map_first_match(s.skip(1), i - 1, k);
    }
}

/// One contract's storage trie.
#[derive(Debug)]
pub struct StorageTrie {
    /// The bindings, most recent first.
    pub slots: Vec<(U256, U256)>,
    /// The configuration the trie was opened with.
    pub config: TrieConfig,
}

impl StorageTrie {
    /// The map this trie holds.
    pub open spec fn view(&self) -> Map<U256, U256> {
        slots_map(self.slots@)
    }

    /// Open a fresh, empty trie.
    pub fn new(config: TrieConfig) -> (r: StorageTrie)
        ensures
            r.slots@ == Seq::<(U256, U256)>::empty(),
            r@ == Map::<U256, U256>::empty(),
            r.config == config,
    {
        StorageTrie { slots: Vec::new(), config }
    }

    /// Load a trie from bindings read back out of a snapshot, under the
    /// given configuration.
    pub fn load(slots: Vec<(U256, U256)>, config: TrieConfig) -> (r: StorageTrie)
        ensures
            r.slots@ == slots@,
            r@ == slots_map(slots@),
            r.config == config,
    {
        StorageTrie { slots, config }
    }

    /// Read one slot; a key never written has no value.
    pub fn get(&self, k: &U256) -> (r: Option<U256>)
        ensures
            match r {
                Some(v) => self@.contains_key(*k) && self@[*k] == v,
                None => !self@.contains_key(*k),
            },
    {
        let mut i: usize = 0;
        while i < self.slots.len()
            invariant
                i <= self.slots.len(),
                forall|j: int| 0 <= j < i ==> self.slots@[j].0 != *k,
            decreases self.slots.len() - i,
        {
            if self.slots[i].0 == *k {
                proof {
                    lemma_slots_map_first_match(self.slots@, i as int, *k);
                }
                return Some(self.slots[i].1);
            }
            i = i + 1;
        }
        proof {
            lemma_slots_map_no_key(self.slots@, *k);
        }
        None
    }

    /// Write one slot: the new binding shadows any earlier one.
    pub fn put(&mut self, k: U256, v: U256)
        ensures
            final(self).slots@ == seq![(k, v)] + old(self).slots@,
            final(self)@ == old(self)@.insert(k, v),
            final(self).config == old(self).config,
    {
        self.slots.insert(0, (k, v));
        proof {
            assert(self.slots@ =~= seq![(k, v)] + old(self).slots@);
            lemma_slots_map_prepend((k, v), old(self).slots@);
        }
    }
}

/// The snapshot form of a trie: each binding in order, as 32 bytes of key
/// then 32 bytes of value.
pub open spec fn spec_encode_slots(s: Seq<(U256, U256)>) -> Seq<u8>
    decreases s.len(),
{
    if s.len() == 0 {
        Seq::empty()
    } else {
        spec_u256_to_bytes(s[0].0) + spec_u256_to_bytes(s[0].1) + spec_encode_slots(s.skip(1))
    }
}

/// Split a snapshot whose length is a whole number of 64-byte records back
/// into bindings.
pub open spec fn spec_decode_slots_chunks(b: Seq<u8>) -> Seq<(U256, U256)>
    recommends
        b.len() % 64 == 0,
    decreases b.len(),
{
    if b.len() < 64 {
        Seq::empty()
    } else {
        seq![(spec_u256_from_bytes(b.subrange(0, 32)), spec_u256_from_bytes(b.subrange(32, 64)))]
            + spec_decode_slots_chunks(b.skip(64))
    }
}

/// Read a snapshot back, or nothing if its length is not a whole number of
/// records.
pub open spec fn spec_decode_slots(b: Seq<u8>) -> Option<Seq<(U256, U256)>> {
    if b.len() % 64 == 0 {
        Some(spec_decode_slots_chunks(b))
    } else {
        None
    }
}

/// A snapshot is 64 bytes per binding.
pub proof fn lemma_encode_slots_len(s: Seq<(U256, U256)>)
    ensures
        spec_encode_slots(s).len() == 64 * s.len(),
    decreases s.len(),
{
    if s.len() > 0 {
        lemma_u256_bytes_round_trip(s[0].0);
        lemma_u256_bytes_round_trip(s[0].1);
        lemma_encode_slots_len(s.skip(1));
    }
}

/// Decoding a snapshot recovers exactly the bindings it was encoded from.
pub proof fn lemma_slots_round_trip(s: Seq<(U256, U256)>)
    ensures
        spec_decode_slots(spec_encode_slots(s)) == Some(s),
    decreases s.len(),
{
    lemma_encode_slots_len(s);
    let b = spec_encode_slots(s);
    if s.len() == 0 {
        assert(spec_decode_slots_chunks(b) =~= s);
    } else {
        lemma_u256_bytes_round_trip(s[0].0);
        lemma_u256_bytes_round_trip(s[0].1);
        assert(b.subrange(0, 32) =~= spec_u256_to_bytes(s[0].0));
        assert(b.subrange(32, 64) =~= spec_u256_to_bytes(s[0].1));
        assert(b.skip(64) =~= spec_encode_slots(s.skip(1)));
        lemma_slots_round_trip(s.skip(1));
        assert(spec_decode_slots_chunks(b) =~= s);
    }
}

/// Serialize a trie's bindings into a snapshot blob.
pub fn encode_slots(slots: &Vec<(U256, U256)>) -> (r: Vec<u8>)
    ensures
        r@ == spec_encode_slots(slots@),
{
    let mut r: Vec<u8> = Vec::new();
    let mut i: usize = slots.len();
    assert(slots@.skip(i as int) =~= Seq::<(U256, U256)>::empty());
    while i > 0
        invariant
            i <= slots.len(),
            r@ == spec_encode_slots(slots@.skip(i as int)),
        decreases i,
    {
        i = i - 1;
        let mut chunk = u256_to_bytes(&slots[i].0);
        let mut val_bytes = u256_to_bytes(&slots[i].1);
        chunk.append(&mut val_bytes);
        chunk.append(&mut r);
        r = chunk;
        proof {
            let tail = slots@.skip(i as int);
            assert(tail[0] == slots@[i as int]);
            assert(tail.skip(1) =~= slots@.skip(i as int + 1));
        }
    }
    assert(slots@.skip(0) =~= slots@);
    r
}

/// Read a snapshot blob back into bindings, or nothing if it is malformed.
pub fn decode_slots(b: &Vec<u8>) -> (r: Option<Vec<(U256, U256)>>)
    ensures
        match r {
            Some(v) => spec_decode_slots(b@) == Some(v@),
            None => spec_decode_slots(b@) is None,
        },
{
    if b.len() % 64 != 0 {
        return None;
    }
    let mut out: Vec<(U256, U256)> = Vec::new();
    let mut i: usize = b.len();
    assert(b@.skip(i as int) =~= Seq::<u8>::empty());
    while i > 0
        invariant
            i <= b.len(),
            i % 64 == 0,
            b.len() % 64 == 0,
            out@ == spec_decode_slots_chunks(b@.skip(i as int)),
        decreases i,
    {
        i = i - 64;
        let k = u256_from_bytes(slice_subrange(b.as_slice(), i, i + 32));
        let v = u256_from_bytes(slice_subrange(b.as_slice(), i + 32, i + 64));
        out.insert(0, (k, v));
        proof {
            let tail = b@.skip(i as int);
            assert(tail.len() >= 64);
            assert(tail.subrange(0, 32) =~= b@.subrange(i as int, i as int + 32));
            assert(tail.subrange(32, 64) =~= b@.subrange(i as int + 32, i as int + 64));
            assert(tail.skip(64) =~= b@.skip(i as int + 64));
            assert(out@ =~= spec_decode_slots_chunks(tail));
        }
    }
    assert(b@.skip(0) =~= b@);
    Some(out)
}

} // verus!

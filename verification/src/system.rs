//! The platform abstraction layer: the single bridge object the execution
//! engine is given to reach one contract's storage trie and, through the
//! dispatcher, the host runtime. It exposes slot reads and writes during
//! execution and a state flush afterwards.

use vstd::prelude::*;
use crate::error::ActorError;
use crate::store::{ByteStore, ContentId};
use crate::trie::{encode_slots, spec_encode_slots, StorageTrie};
use crate::u256::U256;

verus! {

/// The abstraction layer bound to one contract's storage trie for the
/// duration of a call. The dispatcher keeps the layer after execution
/// returns, notably to flush.
#[derive(Debug)]
pub struct System {
    /// The storage trie of the contract being executed.
    pub trie: StorageTrie,
}

impl System {
    /// The storage map the layer currently sees.
    pub open spec fn view(&self) -> Map<U256, U256> {
        self.trie@
    }

    /// Bind the layer to a contract's storage trie.
    pub fn new(trie: StorageTrie) -> (r: System)
        ensures
            r.trie.slots@ == trie.slots@,
            r.trie.config == trie.config,
            r@ == trie@,
    {
        System { trie }
    }

    /// Read one 256-bit storage slot by key; a key never written has no
    /// value.
    pub fn get_storage(&self, key: &U256) -> (r: Option<U256>)
        ensures
            match r {
                Some(v) => self@.contains_key(*key) && self@[*key] == v,
                None => !self@.contains_key(*key),
            },
    {
        self.trie.get(key)
    }

    /// Write one 256-bit storage slot; used by the engine for the
    /// program's storage-store operations.
    pub fn set_storage(&mut self, key: U256, value: U256)
        ensures
            final(self).trie.slots@ == seq![(key, value)] + old(self).trie.slots@,
            final(self)@ == old(self)@.insert(key, value),
            final(self).trie.config == old(self).trie.config,
    {
        self.trie.put(key, value);
    }

    /// Flush all buffered trie mutations into the store and hand back the
    /// new root reference. The root addresses the exact snapshot of the
    /// current bindings.
    pub fn flush_state(&self, store: &mut ByteStore) -> (r: Result<ContentId, ActorError>)
        ensures
            match r {
                Ok(id) => {
                    &&& id@ == spec_encode_slots(self.trie.slots@)
                    &&& final(store)@ == old(store)@.push(id@)
                    &&& final(store).resolves(id@)
                },
                Err(_) => false,
            },
    {
        let snapshot = encode_slots(&self.trie.slots);
        Ok(store.put(snapshot))
    }
}

} // verus!

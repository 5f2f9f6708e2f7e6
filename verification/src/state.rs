//! The durable per-contract record: the deployed code's content reference
//! paired with the root reference of the contract's storage trie.

use vstd::prelude::*;
use crate::store::{ByteStore, ContentId};

verus! {

/// The persistent contract state record. `bytecode` is set exactly once at
/// deployment and never changes; `contract_state` changes only through the
/// dispatcher's atomic transaction after a successful, non-reverted
/// invocation.
#[derive(Debug)]
pub struct State {
    /// Content reference to the immutable deployed code bytes.
    pub bytecode: ContentId,
    /// Content reference to the root of the contract's storage trie.
    pub contract_state: ContentId,
}

impl State {
    /// Store the deployed code bytes and pair their reference with the
    /// given storage-trie root. This is the record's only constructor;
    /// later root updates go through the dispatcher's transaction.
    pub fn new(store: &mut ByteStore, bytecode: Vec<u8>, contract_state: ContentId) -> (r: State)
        ensures
            r.bytecode@ == bytecode@,
            r.contract_state@ == contract_state@,
            final(store)@ == old(store)@.push(bytecode@),
            final(store).resolves(bytecode@),
    {
        let code_ref = store.put(bytecode);
        State { bytecode: code_ref, contract_state }
    }

    /// An identical copy of the record.
    pub fn duplicate(&self) -> (r: State)
        ensures
            r.bytecode@ == self.bytecode@,
            r.contract_state@ == self.contract_state@,
    {
        State {
            bytecode: self.bytecode.duplicate(),
            contract_state: self.contract_state.duplicate(),
        }
    }
}

} // verus!

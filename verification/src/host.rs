//! The host-runtime boundary as the dispatcher sees it: the actor's
//! durable record, the content-addressed byte store, the immediate
//! caller's identity, and whether the actor has been deleted. Cross-call
//! isolation is the host's: one call is processed at a time.

use vstd::prelude::*;
use crate::error::ActorError;
use crate::state::State;
use crate::store::ByteStore;

verus! {

/// The reserved system identity: the only caller allowed to read storage
/// slots directly.
pub const SYSTEM_ACTOR_ID: u64 = 0;

/// One actor's view of the host runtime for the duration of a call.
#[derive(Debug)]
pub struct Host {
    /// The content-addressed byte store.
    pub store: ByteStore,
    /// The actor's durable record, if one has been created.
    pub state: Option<State>,
    /// The numeric identity of the immediate caller.
    pub caller: u64,
    /// Whether the actor has been deleted by a self-destruct.
    pub deleted: bool,
}

/// Two host views agree observably: same stored blobs, same record, same
/// caller, same deletion flag.
pub open spec fn spec_same_host(a: Host, b: Host) -> bool {
    &&& b.store@ == a.store@
    &&& match (a.state, b.state) {
        (Option::None, Option::None) => true,
        (Option::Some(x), Option::Some(y)) => y.bytecode@ == x.bytecode@ && y.contract_state@
            == x.contract_state@,
        _ => false,
    }
    &&& b.caller == a.caller
    &&& b.deleted == a.deleted
}

impl Host {
    /// A fresh host view with no record, an empty store, and the given
    /// caller.
    pub fn new(caller: u64) -> (r: Host)
        ensures
            r.store@ == Seq::<Seq<u8>>::empty(),
            r.state is None,
            r.caller == caller,
            !r.deleted,
    {
        Host { store: ByteStore::new(), state: None, caller, deleted: false }
    }

    /// Load the actor's durable record; an actor without one is in an
    /// illegal state.
    pub fn load_state(&self) -> (r: Result<State, ActorError>)
        ensures
            match r {
                Ok(s) => self.state matches Some(st) && s.bytecode@ == st.bytecode@
                    && s.contract_state@ == st.contract_state@,
                Err(e) => self.state is None && e == ActorError::MissingOrCorruptState,
            },
    {
        match &self.state {
            Some(st) => Ok(st.duplicate()),
            None => Err(ActorError::MissingOrCorruptState),
        }
    }
}

} // verus!

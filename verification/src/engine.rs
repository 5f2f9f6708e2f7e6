//! The boundary contract of the bytecode execution engine.
//!
//! The engine's instruction-level semantics live outside this library;
//! only what the dispatcher consumes is stated here. A run is therefore
//! represented by an [`Engine`] value carrying the storage writes the
//! program performs through the abstraction layer and the structured
//! outcome it finishes with; [`execute`] plays that behaviour against the
//! layer. The dispatcher is verified for every such behaviour, so its
//! guarantees hold whatever the real engine does within this boundary.

use vstd::prelude::*;
use crate::error::ActorError;
use crate::system::System;
use crate::trie::{lemma_slots_map_prepend, slots_map};
use crate::u256::U256;

verus! {

/// The engine's status classification of one run, beside the orthogonal
/// reverted flag.
#[derive(Clone, Copy, PartialEq, Eq, Structural, Debug)]
pub enum Status {
    /// The program ran to completion.
    Success,
    /// The engine reports a typed failure, propagated verbatim.
    Fault(ActorError),
    /// Any other engine-internal status.
    Other,
}

/// The structured result of running a program once: produced by the
/// engine, consumed immediately by the dispatcher, never persisted.
#[derive(Debug)]
pub struct Outcome {
    /// The program explicitly aborted.
    pub reverted: bool,
    /// The engine's status classification.
    pub status: Status,
    /// The program's output bytes.
    pub output: Vec<u8>,
    /// A self-destruct request naming the beneficiary identity, if the
    /// program signalled one.
    pub selfdestruct: Option<u64>,
}

/// One engine behaviour: the storage writes the program performs, in
/// order, and what the run finishes with.
#[derive(Debug)]
pub struct Engine {
    /// The storage writes the program performs through the abstraction
    /// layer, in program order.
    pub writes: Vec<(U256, U256)>,
    /// The run's result: an outcome record, or an engine error.
    pub outcome: Result<Outcome, Status>,
}

/// The trie bindings after a sequence of writes: each write shadows
/// earlier bindings of its key.
pub open spec fn spec_apply_writes(
    slots: Seq<(U256, U256)>,
    ws: Seq<(U256, U256)>,
) -> Seq<(U256, U256)>
    decreases ws.len(),
{
    if ws.len() == 0 {
        slots
    } else {
        seq![ws.last()] + spec_apply_writes(slots, ws.drop_last())
    }
}

/// After the writes, a key whose last write was `ws[i]` holds `ws[i].1`.
pub proof fn lemma_apply_writes_written(slots: Seq<(U256, U256)>, ws: Seq<(U256, U256)>, i: int)
    requires
        0 <= i < ws.len(),
        forall|j: int| i < j < ws.len() ==> ws[j].0 != ws[i].0,
    ensures
        slots_map(spec_apply_writes(slots, ws)).contains_key(ws[i].0),
        slots_map(spec_apply_writes(slots, ws))[ws[i].0] == ws[i].1,
    decreases ws.len(),
{
    lemma_slots_map_prepend(ws.last(), spec_apply_writes(slots, ws.drop_last()));
    if i < ws.len() - 1 {
        assert(forall|j: int| i < j < ws.drop_last().len() ==> ws.drop_last()[j] == ws[j]);
        lemma_apply_writes_written(slots, ws.drop_last(), i);
    }
}

/// A key no write touches keeps exactly the value the trie held before.
pub proof fn lemma_apply_writes_unwritten(slots: Seq<(U256, U256)>, ws: Seq<(U256, U256)>, k: U256)
    requires
        forall|j: int| 0 <= j < ws.len() ==> ws[j].0 != k,
    ensures
        slots_map(spec_apply_writes(slots, ws)).contains_key(k) == slots_map(slots).contains_key(
            k,
        ),
        slots_map(slots).contains_key(k) ==> slots_map(spec_apply_writes(slots, ws))[k]
            == slots_map(slots)[k],
    decreases ws.len(),
{
    if ws.len() > 0 {
        lemma_slots_map_prepend(ws.last(), spec_apply_writes(slots, ws.drop_last()));
        assert(forall|j: int| 0 <= j < ws.drop_last().len() ==> ws.drop_last()[j] == ws[j]);
        lemma_apply_writes_unwritten(slots, ws.drop_last(), k);
    }
}

/// Run a validated program against a call context and the abstraction
/// layer: the behaviour's writes land in the layer's trie in order, and
/// the behaviour's result comes back. Identical program, context, and
/// trie state yield identical outcomes and identical trie mutations.
pub fn execute(
    program: &crate::bytecode::Bytecode,
    context: &crate::bytecode::ExecutionState,
    system: &mut System,
    behaviour: Engine,
) -> (r: Result<Outcome, Status>)
    ensures
        final(system).trie.slots@ == spec_apply_writes(old(system).trie.slots@, behaviour.writes@),
        final(system).trie.config == old(system).trie.config,
        r == behaviour.outcome,
{
    let Engine { writes, outcome } = behaviour;
    let ghost ws = writes@;
    let ghost orig = system.trie.slots@;
    let mut i: usize = 0;
    assert(system.trie.slots@ =~= spec_apply_writes(orig, ws.take(0)));
    while i < writes.len()
        invariant
            i <= writes.len(),
            ws == writes@,
            system.trie.slots@ == spec_apply_writes(orig, ws.take(i as int)),
            system.trie.config == old(system).trie.config,
        decreases writes.len() - i,
    {
        let (k, v) = writes[i];
        system.set_storage(k, v);
        proof {
            let t = ws.take(i as int + 1);
            assert(t.last() == ws[i as int]);
            assert(t.drop_last() =~= ws.take(i as int));
        }
        i = i + 1;
    }
    assert(ws.take(ws.len() as int) =~= ws);
    outcome
}

} // verus!

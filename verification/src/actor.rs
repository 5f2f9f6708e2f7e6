//! The actor dispatcher: the externally callable surface — deploy,
//! invoke, get-bytecode, get-storage-at — and the numeric dispatch table
//! routing inbound calls to them or to generic contract invocation.
//!
//! Every operation takes the engine behaviour for the call as an explicit
//! value, so each contract below holds for anything the execution engine
//! may do. A call either fully succeeds — its state transaction and any
//! self-destruct both happen — or fully fails and commits nothing.

use vstd::prelude::*;
use crate::bytecode::{Bytecode, ExecutionState};
use crate::codec::{
    decode_deploy_params, decode_storage_params, encode_cid_result, encode_storage_result,
    spec_decode_deploy_params, spec_decode_storage_params, spec_encode_cid_result,
    spec_encode_storage_result, ConstructorParams, GetStorageAtParams,
};
use crate::engine::{execute, spec_apply_writes, Engine, Outcome, Status};
use crate::error::ActorError;
use crate::host::{spec_same_host, Host, SYSTEM_ACTOR_ID};
use crate::state::State;
use crate::store::ContentId;
use crate::system::System;
use crate::trie::{shared_config, slots_map, spec_decode_slots, spec_encode_slots, StorageTrie};
use crate::u256::U256;

verus! {

/// Maximum allowed bytecode size at deployment: 24 KiB.
pub const MAX_CODE_SIZE: usize = 24576;

/// The built-in numeric method selectors.
#[derive(Clone, Copy, PartialEq, Eq, Structural, Debug)]
pub enum Method {
    /// Deploy a contract.
    Constructor,
    /// Invoke the deployed contract.
    InvokeContract,
    /// Return the deployed code's content reference.
    GetBytecode,
    /// Read one storage slot; reserved to the system identity.
    GetStorageAt,
}

impl Method {
    /// The numeric selector of a built-in method.
    pub open spec fn spec_num(self) -> u64 {
        match self {
            Method::Constructor => 0,
            Method::InvokeContract => 2,
            Method::GetBytecode => 3,
            Method::GetStorageAt => 4,
        }
    }

    /// The closed decision table from a numeric selector to a built-in
    /// method; every other number routes to contract invocation.
    pub fn from_num(n: u64) -> (r: Option<Method>)
        ensures
            match r {
                Some(m) => m.spec_num() == n,
                None => n != 0 && n != 2 && n != 3 && n != 4,
            },
    {
        if n == 0 {
            Some(Method::Constructor)
        } else if n == 2 {
            Some(Method::InvokeContract)
        } else if n == 3 {
            Some(Method::GetBytecode)
        } else if n == 4 {
            Some(Method::GetStorageAt)
        } else {
            None
        }
    }
}

/// What deploying `code` under engine behaviour `behaviour` does to the
/// host, and what it returns: the whole outcome handling of the
/// constructor, case by case.
pub open spec fn spec_constructor_post(
    pre: Host,
    post: Host,
    code: Seq<u8>,
    behaviour: Engine,
    r: Result<(), ActorError>,
) -> bool {
    if code.len() > MAX_CODE_SIZE || code.len() == 0 {
        r == Err::<(), ActorError>(ActorError::InvalidInput) && spec_same_host(pre, post)
    } else {
        match behaviour.outcome {
            Err(Status::Fault(e)) => r == Err::<(), ActorError>(e) && spec_same_host(pre, post),
            Err(_) => r == Err::<(), ActorError>(ActorError::Unspecified) && spec_same_host(
                pre,
                post,
            ),
            Ok(o) => if o.reverted {
                r == Err::<(), ActorError>(ActorError::ContractReverted) && spec_same_host(
                    pre,
                    post,
                )
            } else {
                match o.status {
                    Status::Success => if o.output@.len() == 0 {
                        r == Err::<(), ActorError>(ActorError::EmptyDeployment) && spec_same_host(
                            pre,
                            post,
                        )
                    } else {
                        let snapshot = spec_encode_slots(
                            spec_apply_writes(Seq::<(U256, U256)>::empty(), behaviour.writes@),
                        );
                        &&& r == Ok::<(), ActorError>(())
                        &&& post.store@ == pre.store@.push(snapshot).push(o.output@)
                        &&& post.state matches Some(st) && st.bytecode@ == o.output@
                            && st.contract_state@ == snapshot
                        &&& post.caller == pre.caller
                        &&& post.deleted == pre.deleted
                    },
                    Status::Fault(e) => r == Err::<(), ActorError>(e) && spec_same_host(pre, post),
                    Status::Other => r == Err::<(), ActorError>(ActorError::Unspecified)
                        && spec_same_host(pre, post),
                }
            },
        }
    }
}

/// What invoking the deployed contract under engine behaviour `behaviour`
/// does to the host, and what it returns. Only a non-reverted success
/// commits the new trie root — leaving the code reference untouched — and
/// only then is a signalled self-destruct honoured, strictly after the
/// commit.
pub open spec fn spec_invoke_post(
    pre: Host,
    post: Host,
    behaviour: Engine,
    r: Result<Seq<u8>, ActorError>,
) -> bool {
    match pre.state {
        None => r == Err::<Seq<u8>, ActorError>(ActorError::MissingOrCorruptState)
            && spec_same_host(pre, post),
        Some(st) => if !pre.store.resolves(st.bytecode@) {
            r == Err::<Seq<u8>, ActorError>(ActorError::MissingOrCorruptState) && spec_same_host(
                pre,
                post,
            )
        } else if st.bytecode@.len() + 33 >= usize::MAX {
            r == Err::<Seq<u8>, ActorError>(ActorError::Unspecified) && spec_same_host(pre, post)
        } else if !pre.store.resolves(st.contract_state@) {
            r == Err::<Seq<u8>, ActorError>(ActorError::MissingOrCorruptState) && spec_same_host(
                pre,
                post,
            )
        } else {
            match spec_decode_slots(st.contract_state@) {
                None => r == Err::<Seq<u8>, ActorError>(ActorError::MissingOrCorruptState)
                    && spec_same_host(pre, post),
                Some(slots) => match behaviour.outcome {
                    Err(Status::Fault(e)) => r == Err::<Seq<u8>, ActorError>(e) && spec_same_host(
                        pre,
                        post,
                    ),
                    Err(_) => r == Err::<Seq<u8>, ActorError>(ActorError::Unspecified)
                        && spec_same_host(pre, post),
                    Ok(o) => if o.reverted {
                        r == Err::<Seq<u8>, ActorError>(ActorError::ContractReverted)
                            && spec_same_host(pre, post)
                    } else {
                        match o.status {
                            Status::Success => {
                                let snapshot = spec_encode_slots(
                                    spec_apply_writes(slots, behaviour.writes@),
                                );
                                &&& r == Ok::<Seq<u8>, ActorError>(o.output@)
                                &&& post.store@ == pre.store@.push(snapshot)
                                &&& post.state matches Some(st2) && st2.bytecode@ == st.bytecode@
                                    && st2.contract_state@ == snapshot
                                &&& post.caller == pre.caller
                                &&& post.deleted == (pre.deleted || o.selfdestruct is Some)
                            },
                            Status::Fault(e) => r == Err::<Seq<u8>, ActorError>(e)
                                && spec_same_host(pre, post),
                            Status::Other => r == Err::<Seq<u8>, ActorError>(
                                ActorError::Unspecified,
                            ) && spec_same_host(pre, post),
                        }
                    },
                },
            }
        },
    }
}

/// What reading one storage slot returns, as a function of the host and
/// the key: only the reserved system identity may ask, and a key never
/// written has no value.
pub open spec fn spec_storage_at(h: Host, key: U256) -> Result<U256, ActorError> {
    if h.caller != SYSTEM_ACTOR_ID {
        Err(ActorError::PermissionDenied)
    } else {
        match h.state {
            None => Err(ActorError::MissingOrCorruptState),
            Some(st) => if !h.store.resolves(st.contract_state@) {
                Err(ActorError::MissingOrCorruptState)
            } else {
                match spec_decode_slots(st.contract_state@) {
                    None => Err(ActorError::MissingOrCorruptState),
                    Some(slots) => if slots_map(slots).contains_key(key) {
                        Ok(slots_map(slots)[key])
                    } else {
                        Err(ActorError::NotFound)
                    },
                }
            },
        }
    }
}

/// What the get-bytecode operation returns: the deployed code's content
/// reference, for any caller.
pub open spec fn spec_bytecode(h: Host) -> Result<Seq<u8>, ActorError> {
    match h.state {
        None => Err(ActorError::MissingOrCorruptState),
        Some(st) => Ok(st.bytecode@),
    }
}

/// The contract actor: its four operations and the dispatch table.
pub struct EvmContractActor;

impl EvmContractActor {
    /// Deploy: validate the bytecode size, run the constructor program on
    /// a fresh, empty storage trie, and on non-reverted success with
    /// non-empty output persist the record pairing the output's content
    /// reference with the flushed trie root. Anything else creates no
    /// record.
    pub fn constructor(host: &mut Host, params: ConstructorParams, behaviour: Engine) -> (r:
        Result<(), ActorError>)
        ensures
            spec_constructor_post(*old(host), *final(host), params.bytecode@, behaviour, r),
    {
        if params.bytecode.len() > MAX_CODE_SIZE {
            return Err(ActorError::InvalidInput);
        }
        if params.bytecode.len() == 0 {
            return Err(ActorError::InvalidInput);
        }
        let trie = StorageTrie::new(shared_config());
        let mut system = System::new(trie);
        let context = ExecutionState::new(0, Vec::new());
        let program = match Bytecode::new(&params.bytecode) {
            Ok(p) => p,
            Err(e) => {
                return Err(e);
            },
        };
        let result = execute(&program, &context, &mut system, behaviour);
        match result {
            Err(Status::Fault(e)) => Err(e),
            Err(_) => Err(ActorError::Unspecified),
            Ok(o) => {
                if o.reverted {
                    Err(ActorError::ContractReverted)
                } else {
                    match o.status {
                        Status::Success => {
                            if o.output.len() == 0 {
                                Err(ActorError::EmptyDeployment)
                            } else {
                                let root = match system.flush_state(&mut host.store) {
                                    Ok(id) => id,
                                    Err(e) => {
                                        return Err(e);
                                    },
                                };
                                let new_state = State::new(&mut host.store, o.output, root);
                                host.state = Some(new_state);
                                Ok(())
                            }
                        },
                        Status::Fault(e) => Err(e),
                        Status::Other => Err(ActorError::Unspecified),
                    }
                }
            },
        }
    }

    /// Invoke: load the record, code, and storage trie, run the program,
    /// and on non-reverted success flush the trie and atomically replace
    /// only the record's trie root; a signalled self-destruct is honoured
    /// strictly after that commit. The call's result is the program's
    /// output bytes.
    pub fn invoke_contract(
        host: &mut Host,
        method: u64,
        input_data: &Vec<u8>,
        behaviour: Engine,
    ) -> (r: Result<Vec<u8>, ActorError>)
        ensures
            spec_invoke_post(
                *old(host),
                *final(host),
                behaviour,
                match r {
                    Ok(v) => Ok(v@),
                    Err(e) => Err(e),
                },
            ),
    {
        let st = match host.load_state() {
            Ok(st) => st,
            Err(e) => {
                return Err(e);
            },
        };
        let code = match host.store.get(&st.bytecode) {
            Some(c) => c,
            None => {
                return Err(ActorError::MissingOrCorruptState);
            },
        };
        let program = match Bytecode::new(&code) {
            Ok(p) => p,
            Err(e) => {
                return Err(e);
            },
        };
        let root_bytes = match host.store.get(&st.contract_state) {
            Some(b) => b,
            None => {
                return Err(ActorError::MissingOrCorruptState);
            },
        };
        let slots = match crate::trie::decode_slots(&root_bytes) {
            Some(s) => s,
            None => {
                return Err(ActorError::MissingOrCorruptState);
            },
        };
        let trie = StorageTrie::load(slots, shared_config());
        let mut system = System::new(trie);
        let context = ExecutionState::new(method, crate::store::clone_bytes(input_data));
        let result = execute(&program, &context, &mut system, behaviour);
        match result {
            Err(Status::Fault(e)) => Err(e),
            Err(_) => Err(ActorError::Unspecified),
            Ok(o) => {
                let Outcome { reverted, status, output, selfdestruct } = o;
                if reverted {
                    Err(ActorError::ContractReverted)
                } else {
                    match status {
                        Status::Success => {
                            let root = match system.flush_state(&mut host.store) {
                                Ok(id) => id,
                                Err(e) => {
                                    return Err(e);
                                },
                            };
                            host.state = Some(
                                State { bytecode: st.bytecode, contract_state: root },
                            );
                            if selfdestruct.is_some() {
                                host.deleted = true;
                            }
                            Ok(output)
                        },
                        Status::Fault(e) => Err(e),
                        Status::Other => Err(ActorError::Unspecified),
                    }
                }
            },
        }
    }

    /// Get-bytecode: any caller may fetch the deployed code's content
    /// reference. No trie access, no mutation.
    pub fn bytecode(host: &mut Host) -> (r: Result<ContentId, ActorError>)
        ensures
            spec_same_host(*old(host), *final(host)),
            match r {
                Ok(id) => spec_bytecode(*old(host)) == Ok::<Seq<u8>, ActorError>(id@),
                Err(e) => spec_bytecode(*old(host)) == Err::<Seq<u8>, ActorError>(e),
            },
    {
        let st = match host.load_state() {
            Ok(st) => st,
            Err(e) => {
                return Err(e);
            },
        };
        Ok(st.bytecode)
    }

    /// Get-storage-at: reserved to the system identity; reads one slot of
    /// the persisted trie. No mutation.
    pub fn storage_at(host: &mut Host, params: GetStorageAtParams) -> (r: Result<
        U256,
        ActorError,
    >)
        ensures
            spec_same_host(*old(host), *final(host)),
            r == spec_storage_at(*old(host), params.storage_key),
    {
        if host.caller != SYSTEM_ACTOR_ID {
            return Err(ActorError::PermissionDenied);
        }
        let st = match host.load_state() {
            Ok(st) => st,
            Err(e) => {
                return Err(e);
            },
        };
        let root_bytes = match host.store.get(&st.contract_state) {
            Some(b) => b,
            None => {
                return Err(ActorError::MissingOrCorruptState);
            },
        };
        let slots = match crate::trie::decode_slots(&root_bytes) {
            Some(s) => s,
            None => {
                return Err(ActorError::MissingOrCorruptState);
            },
        };
        let trie = StorageTrie::load(slots, shared_config());
        let system = System::new(trie);
        match system.get_storage(&params.storage_key) {
            Some(v) => Ok(v),
            None => Err(ActorError::NotFound),
        }
    }

    /// The dispatch table: decode the numeric selector and route.
    /// Selector 0 deploys with wire-decoded parameters; 2 invokes with
    /// the raw bytes; 3 returns the wire-encoded code reference; 4 reads
    /// a slot with wire-decoded parameters and encodes the value; every
    /// other number routes to contract invocation with that number as the
    /// call context's method.
    pub fn invoke_method(host: &mut Host, method: u64, params: &Vec<u8>, behaviour: Engine) -> (r:
        Result<Vec<u8>, ActorError>)
        ensures
            ({
                let pre = *old(host);
                let post = *final(host);
                let rr = match r {
                    Ok(v) => Ok::<Seq<u8>, ActorError>(v@),
                    Err(e) => Err::<Seq<u8>, ActorError>(e),
                };
                if method == 0 {
                    match spec_decode_deploy_params(params@) {
                        None => rr == Err::<Seq<u8>, ActorError>(ActorError::InvalidInput)
                            && spec_same_host(pre, post),
                        Some(code) => {
                            &&& spec_constructor_post(
                                pre,
                                post,
                                code,
                                behaviour,
                                match rr {
                                    Ok(_) => Ok(()),
                                    Err(e) => Err(e),
                                },
                            )
                            &&& (rr matches Ok(v) ==> v == Seq::<u8>::empty())
                        },
                    }
                } else if method == 3 {
                    &&& spec_same_host(pre, post)
                    &&& match spec_bytecode(pre) {
                        Err(e) => rr == Err::<Seq<u8>, ActorError>(e),
                        Ok(code_ref) => if code_ref.len() < 65536 {
                            rr == Ok::<Seq<u8>, ActorError>(spec_encode_cid_result(code_ref))
                        } else {
                            rr == Err::<Seq<u8>, ActorError>(ActorError::Unspecified)
                        },
                    }
                } else if method == 4 {
                    &&& spec_same_host(pre, post)
                    &&& match spec_decode_storage_params(params@) {
                        None => rr == Err::<Seq<u8>, ActorError>(ActorError::InvalidInput),
                        Some(key) => match spec_storage_at(pre, key) {
                            Ok(v) => rr == Ok::<Seq<u8>, ActorError>(
                                spec_encode_storage_result(v),
                            ),
                            Err(e) => rr == Err::<Seq<u8>, ActorError>(e),
                        },
                    }
                } else {
                    spec_invoke_post(pre, post, behaviour, rr)
                }
            }),
    {
        match Method::from_num(method) {
            Some(Method::Constructor) => {
                let p = match decode_deploy_params(params) {
                    Some(p) => p,
                    None => {
                        return Err(ActorError::InvalidInput);
                    },
                };
                match Self::constructor(host, p, behaviour) {
                    Ok(_) => Ok(Vec::new()),
                    Err(e) => Err(e),
                }
            },
            Some(Method::InvokeContract) => Self::invoke_contract(host, 2, params, behaviour),
            Some(Method::GetBytecode) => {
                let id = match Self::bytecode(host) {
                    Ok(id) => id,
                    Err(e) => {
                        return Err(e);
                    },
                };
                match encode_cid_result(&id.bytes) {
                    Some(v) => Ok(v),
                    None => Err(ActorError::Unspecified),
                }
            },
            Some(Method::GetStorageAt) => {
                let p = match decode_storage_params(params) {
                    Some(p) => p,
                    None => {
                        return Err(ActorError::InvalidInput);
                    },
                };
                let v = match Self::storage_at(host, p) {
                    Ok(v) => v,
                    Err(e) => {
                        return Err(e);
                    },
                };
                Ok(encode_storage_result(&v))
            },
            None => Self::invoke_contract(host, method, params, behaviour),
        }
    }
}

/// Hosts that agree observably answer every storage read and every
/// code-reference read alike.
pub proof fn lemma_same_host_same_reads(a: Host, b: Host)
    requires
        spec_same_host(a, b),
    ensures
        forall|key: U256| spec_storage_at(b, key) == spec_storage_at(a, key),
        spec_bytecode(b) == spec_bytecode(a),
{
}

/// A deployment that fails — for any reason — creates no persisted record
/// and leaves the host exactly as it was.
pub proof fn lemma_failed_deploy_creates_nothing(
    pre: Host,
    post: Host,
    code: Seq<u8>,
    behaviour: Engine,
    e: ActorError,
)
    requires
        spec_constructor_post(pre, post, code, behaviour, Err(e)),
    ensures
        spec_same_host(pre, post),
{
}

/// A constructor program that reverts yields the distinguished revert
/// status — exit code 27 — and creates no record.
pub proof fn lemma_reverted_deploy(
    pre: Host,
    post: Host,
    code: Seq<u8>,
    behaviour: Engine,
    r: Result<(), ActorError>,
)
    requires
        spec_constructor_post(pre, post, code, behaviour, r),
        0 < code.len() <= MAX_CODE_SIZE,
        behaviour.outcome matches Ok(o) && o.reverted,
    ensures
        r == Err::<(), ActorError>(ActorError::ContractReverted),
        r matches Err(e) && e.spec_exit_code() == 27,
        spec_same_host(pre, post),
{
}

/// A constructor program that succeeds with empty output fails as an
/// empty deployment and creates no record.
pub proof fn lemma_empty_deploy(
    pre: Host,
    post: Host,
    code: Seq<u8>,
    behaviour: Engine,
    r: Result<(), ActorError>,
)
    requires
        spec_constructor_post(pre, post, code, behaviour, r),
        0 < code.len() <= MAX_CODE_SIZE,
        behaviour.outcome matches Ok(o) && !o.reverted && o.status == Status::Success
            && o.output@.len() == 0,
    ensures
        r == Err::<(), ActorError>(ActorError::EmptyDeployment),
        spec_same_host(pre, post),
{
}

/// A successful deployment whose constructor wrote nothing persists a
/// record whose code reference resolves exactly to the constructor's
/// output, over an empty trie: every storage read by the reserved
/// identity finds nothing.
pub proof fn lemma_deploy_success_fresh_state(
    pre: Host,
    post: Host,
    code: Seq<u8>,
    behaviour: Engine,
    key: U256,
)
    requires
        spec_constructor_post(pre, post, code, behaviour, Ok(())),
        behaviour.writes@.len() == 0,
    ensures
        behaviour.outcome matches Ok(o) ==> {
            &&& post.state matches Some(st) && st.bytecode@ == o.output@
            &&& post.store.resolves(o.output@)
            &&& spec_bytecode(post) == Ok::<Seq<u8>, ActorError>(o.output@)
            &&& post.caller == SYSTEM_ACTOR_ID ==> spec_storage_at(post, key) == Err::<
                U256,
                ActorError,
            >(ActorError::NotFound)
        },
{
    match behaviour.outcome {
        Ok(o) => {
            let empty = Seq::<(U256, U256)>::empty();
            assert(spec_apply_writes(empty, behaviour.writes@) == empty);
            crate::trie::lemma_slots_round_trip(empty);
            let snapshot = spec_encode_slots(empty);
            assert(post.store@[post.store@.len() - 2] == snapshot);
            assert(post.store@[post.store@.len() - 1] == o.output@);
            assert(post.store.resolves(snapshot));
            assert(post.store.resolves(o.output@));
            assert(!slots_map(empty).contains_key(key));
        },
        Err(_) => {
            assert(false);
        },
    }
}

/// An invocation that fails — reverting included — commits nothing: the
/// host, and with it every subsequent storage read, is unchanged.
pub proof fn lemma_failed_invoke_commits_nothing(
    pre: Host,
    post: Host,
    behaviour: Engine,
    e: ActorError,
)
    requires
        spec_invoke_post(pre, post, behaviour, Err(e)),
    ensures
        spec_same_host(pre, post),
        forall|key: U256| spec_storage_at(post, key) == spec_storage_at(pre, key),
{
    lemma_same_host_same_reads(pre, post);
}

/// A write committed by a successful invocation is visible to a
/// subsequent storage read by the reserved identity: the last write to a
/// key gives its value.
pub proof fn lemma_invoke_commit_visible(
    pre: Host,
    post: Host,
    behaviour: Engine,
    out: Seq<u8>,
    i: int,
)
    requires
        spec_invoke_post(pre, post, behaviour, Ok(out)),
        0 <= i < behaviour.writes@.len(),
        forall|j: int|
            i < j < behaviour.writes@.len() ==> behaviour.writes@[j].0 != behaviour.writes@[i].0,
        post.caller == SYSTEM_ACTOR_ID,
    ensures
        spec_storage_at(post, behaviour.writes@[i].0) == Ok::<U256, ActorError>(
            behaviour.writes@[i].1,
        ),
{
    match pre.state {
        Some(st) => {
            match spec_decode_slots(st.contract_state@) {
                Some(slots) => {
                    let applied = spec_apply_writes(slots, behaviour.writes@);
                    crate::trie::lemma_slots_round_trip(applied);
                    crate::engine::lemma_apply_writes_written(slots, behaviour.writes@, i);
                    let snapshot = spec_encode_slots(applied);
                    assert(post.store@[post.store@.len() - 1] == snapshot);
                    assert(post.store.resolves(snapshot));
                },
                None => {
                    assert(false);
                },
            }
        },
        None => {
            assert(false);
        },
    }
}

/// A slot no write of a successful invocation touched reads afterwards
/// exactly as it read before.
pub proof fn lemma_invoke_preserves_untouched_slots(
    pre: Host,
    post: Host,
    behaviour: Engine,
    out: Seq<u8>,
    key: U256,
)
    requires
        spec_invoke_post(pre, post, behaviour, Ok(out)),
        forall|j: int| 0 <= j < behaviour.writes@.len() ==> behaviour.writes@[j].0 != key,
        post.caller == SYSTEM_ACTOR_ID,
        pre.caller == SYSTEM_ACTOR_ID,
    ensures
        spec_storage_at(post, key) == spec_storage_at(pre, key),
{
    match pre.state {
        Some(st) => {
            match spec_decode_slots(st.contract_state@) {
                Some(slots) => {
                    let applied = spec_apply_writes(slots, behaviour.writes@);
                    crate::trie::lemma_slots_round_trip(applied);
                    crate::engine::lemma_apply_writes_unwritten(slots, behaviour.writes@, key);
                    let snapshot = spec_encode_slots(applied);
                    assert(post.store@[post.store@.len() - 1] == snapshot);
                    assert(post.store.resolves(snapshot));
                },
                None => {
                    assert(false);
                },
            }
        },
        None => {
            assert(false);
        },
    }
}

/// The deployed code reference is invariant across one successful
/// invocation.
pub proof fn lemma_invoke_preserves_code_ref(
    pre: Host,
    post: Host,
    behaviour: Engine,
    out: Seq<u8>,
)
    requires
        spec_invoke_post(pre, post, behaviour, Ok(out)),
    ensures
        spec_bytecode(post) == spec_bytecode(pre),
{
}

/// The deployed code reference is invariant across any number of
/// successful invocations: a chain of hosts, each reached from the last
/// by one successful call, ends with the code reference it began with.
pub proof fn lemma_code_ref_invariant_over_calls(
    hosts: Seq<Host>,
    behaviours: Seq<Engine>,
    outs: Seq<Seq<u8>>,
)
    requires
        hosts.len() == behaviours.len() + 1,
        outs.len() == behaviours.len(),
        forall|i: int|
            0 <= i < behaviours.len() ==> spec_invoke_post(
                hosts[i],
                hosts[i + 1],
                behaviours[i],
                Ok(outs[i]),
            ),
    ensures
        spec_bytecode(hosts.last()) == spec_bytecode(hosts.first()),
    decreases behaviours.len(),
{
    if behaviours.len() > 0 {
        let n = behaviours.len() as int;
        assert(forall|i: int|
            0 <= i < n - 1 ==> hosts.drop_last()[i] == hosts[i] && hosts.drop_last()[i + 1]
                == hosts[i + 1] && behaviours.drop_last()[i] == behaviours[i]
                && outs.drop_last()[i] == outs[i]);
        lemma_code_ref_invariant_over_calls(
            hosts.drop_last(),
            behaviours.drop_last(),
            outs.drop_last(),
        );
        lemma_invoke_preserves_code_ref(hosts[n - 1], hosts[n], behaviours[n - 1], outs[n - 1]);
        assert(hosts.drop_last().last() == hosts[n - 1]);
        assert(hosts.drop_last().first() == hosts.first());
    }
}

/// Storage reads are gated: any caller other than the reserved system
/// identity is denied, whether or not the key exists.
pub proof fn lemma_storage_read_gated(h: Host, key: U256)
    requires
        h.caller != SYSTEM_ACTOR_ID,
    ensures
        spec_storage_at(h, key) == Err::<U256, ActorError>(ActorError::PermissionDenied),
{
}

/// When a successful invocation signals self-destruction, the storage
/// mutation is nonetheless committed: the persisted root is the flushed
/// snapshot of the applied writes, and only then is the actor deleted.
pub proof fn lemma_selfdestruct_commits_first(
    pre: Host,
    post: Host,
    behaviour: Engine,
    out: Seq<u8>,
)
    requires
        spec_invoke_post(pre, post, behaviour, Ok(out)),
        behaviour.outcome matches Ok(o) && o.selfdestruct is Some,
    ensures
        post.deleted,
        pre.state matches Some(st) && spec_decode_slots(st.contract_state@) matches Some(slots)
            && post.state matches Some(st2) && st2.contract_state@ == spec_encode_slots(
            spec_apply_writes(slots, behaviour.writes@),
        ),
{
}

} // verus!

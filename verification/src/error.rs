//! The failure taxonomy of the actor, and the numeric exit code each kind
//! carries back to the host runtime.

use vstd::prelude::*;

verus! {

/// Exit code of the distinguished, non-fatal "contract reverted" status,
/// separate from every infrastructure failure code.
pub const EVM_CONTRACT_REVERTED: u32 = 27;

/// Every failure an actor call can return to the host runtime.
#[derive(Clone, Copy, PartialEq, Eq, Structural, Debug)]
pub enum ActorError {
    /// Bytecode outside the allowed size at deployment, or parameters that
    /// do not decode; rejected before any execution.
    InvalidInput,
    /// The program explicitly aborted: a non-fatal, application-level
    /// status so callers can branch on business-logic rejection.
    ContractReverted,
    /// The constructor succeeded but yielded no code; no record is created.
    EmptyDeployment,
    /// Previously stored code or a trie root cannot be loaded during
    /// invocation: inconsistent persisted data, not caller error.
    MissingOrCorruptState,
    /// A storage key that was never written was read.
    NotFound,
    /// A caller other than the reserved system identity used the
    /// storage-read operation.
    PermissionDenied,
    /// An internal failure with no more specific kind.
    Unspecified,
}

impl ActorError {
    /// The numeric exit code signalled to the host runtime.
    pub open spec fn spec_exit_code(self) -> u32 {
        match self {
            ActorError::InvalidInput => 16,
            ActorError::NotFound => 17,
            ActorError::PermissionDenied => 18,
            ActorError::MissingOrCorruptState => 20,
            ActorError::EmptyDeployment => 23,
            ActorError::Unspecified => 23,
            ActorError::ContractReverted => EVM_CONTRACT_REVERTED,
        }
    }

    /// The numeric exit code signalled to the host runtime.
    pub fn exit_code(&self) -> (r: u32)
        ensures
            r == self.spec_exit_code(),
    {
        match self {
            ActorError::InvalidInput => 16,
            ActorError::NotFound => 17,
            ActorError::PermissionDenied => 18,
            ActorError::MissingOrCorruptState => 20,
            ActorError::EmptyDeployment => 23,
            ActorError::Unspecified => 23,
            ActorError::ContractReverted => EVM_CONTRACT_REVERTED,
        }
    }
}

} // verus!

//! Validated programs: raw bytecode parsed once per call, with the valid
//! jump destinations computed ahead of execution, and the ephemeral call
//! context handed to the execution engine.
//!
//! A position is a valid jump destination when it holds the jump-marker
//! opcode and lies on an instruction boundary: the scan starts at position
//! zero and each push opcode carries its immediate data, inside which no
//! destination can lie.

use vstd::prelude::*;
use crate::error::ActorError;

verus! {

/// The jump-marker opcode.
pub const JUMPDEST_OP: u8 = 0x5b;

/// Whether an opcode pushes immediate data, and how much it carries.
pub open spec fn spec_is_push(op: u8) -> bool {
    0x60 <= op <= 0x7f
}

/// The width of one instruction: a push opcode carries 1 to 32 bytes of
/// immediate data after itself.
pub open spec fn spec_step(op: u8) -> nat {
    if spec_is_push(op) {
        (1 + (op - 0x5f)) as nat
    } else {
        1
    }
}

/// The valid jump destinations reachable by scanning from `pc`: every
/// jump-marker opcode on an instruction boundary at or after `pc`.
pub open spec fn spec_jumpdests_from(code: Seq<u8>, pc: nat) -> Set<nat>
    decreases code.len() - pc,
{
    if pc >= code.len() {
        Set::empty()
    } else {
        let op = code[pc as int];
        let step = spec_step(op);
        let rest: Set<nat> = if pc + step <= code.len() {
            spec_jumpdests_from(code, pc + step)
        } else {
            Set::empty()
        };
        if op == JUMPDEST_OP {
            rest.insert(pc)
        } else {
            rest
        }
    }
}

/// The valid jump destinations of a program.
pub open spec fn spec_jumpdests(code: Seq<u8>) -> Set<nat> {
    spec_jumpdests_from(code, 0)
}

/// Every destination reachable from `pc` lies at or after `pc`, inside the
/// code.
pub proof fn lemma_jumpdests_in_range(code: Seq<u8>, pc: nat)
    ensures
        forall|x: nat| spec_jumpdests_from(code, pc).contains(x) ==> pc <= x < code.len(),
    decreases code.len() - pc,
{
    if pc < code.len() {
        let op = code[pc as int];
        let step = spec_step(op);
        if pc + step <= code.len() {
            lemma_jumpdests_in_range(code, pc + step);
        }
        assert forall|x: nat| spec_jumpdests_from(code, pc).contains(x) implies pc <= x
            < code.len() by {
            if x != pc {
                assert(pc + step <= code.len() && spec_jumpdests_from(code, pc + step).contains(
                    x,
                ));
            }
        }
    }
}

/// A program validated for execution: its raw bytes and, for each
/// position, whether it is a valid jump destination.
#[derive(Debug)]
pub struct Bytecode {
    /// The raw program bytes.
    pub code: Vec<u8>,
    /// `jumpdest[i]` holds exactly when `i` is a valid jump destination.
    pub jumpdest: Vec<bool>,
}

impl Bytecode {
    /// The program's bytes.
    pub open spec fn view(&self) -> Seq<u8> {
        self.code@
    }

    /// A well-formed validated program marks exactly the valid jump
    /// destinations of its bytes.
    pub open spec fn wf(&self) -> bool {
        &&& self.jumpdest@.len() == self.code@.len()
        &&& forall|i: int|
            0 <= i < self.code@.len() ==> (self.jumpdest@[i] <==> spec_jumpdests(
                self.code@,
            ).contains(i as nat))
    }

    /// Parse raw bytes into a validated program, identifying the valid
    /// jump destinations. Every byte sequence short enough for the scan's
    /// position arithmetic parses; anything longer is structurally
    /// rejected.
    pub fn new(code: &Vec<u8>) -> (r: Result<Bytecode, ActorError>)
        ensures
            match r {
                Ok(b) => code@.len() + 33 < usize::MAX && b@ == code@ && b.wf(),
                Err(e) => code@.len() + 33 >= usize::MAX && e == ActorError::Unspecified,
            },
    {
        if code.len() >= usize::MAX - 33 {
            return Err(ActorError::Unspecified);
        }
        let n = code.len();
        let mut jumpdest: Vec<bool> = Vec::new();
        let mut j: usize = 0;
        while j < n
            invariant
                j <= n,
                jumpdest@.len() == j,
                forall|i: int| 0 <= i < j ==> !jumpdest@[i],
            decreases n - j,
        {
            jumpdest.push(false);
            j = j + 1;
        }

        let ghost all = spec_jumpdests(code@);
        proof {
            lemma_jumpdests_in_range(code@, 0);
        }
        let mut pc: usize = 0;
        while pc < n
            invariant
                n == code@.len(),
                code@.len() + 33 < usize::MAX,
                pc <= n,
                jumpdest@.len() == n,
                all == spec_jumpdests(code@),
                forall|x: nat| all.contains(x) ==> x < code@.len(),
                forall|x: nat|
                    spec_jumpdests_from(code@, pc as nat).contains(x) ==> all.contains(x),
                forall|x: nat|
                    all.contains(x) && x >= pc ==> spec_jumpdests_from(code@, pc as nat).contains(
                        x,
                    ),
                forall|i: int|
                    0 <= i < n ==> (jumpdest@[i] <==> (all.contains(i as nat) && i < pc)),
            decreases n - pc,
        {
            let op = code[pc];
            proof {
                lemma_jumpdests_in_range(code@, pc as nat + spec_step(op));
            }
            if op == JUMPDEST_OP {
                jumpdest.set(pc, true);
            }
            let step: usize = if 0x60 <= op && op <= 0x7f {
                1 + (op - 0x5f) as usize
            } else {
                1
            };
            assert(step == spec_step(op));
            let ghost old_pc = pc as nat;
            if n - pc <= step {
                pc = n;
            } else {
                pc = pc + step;
            }
            proof {
                assert(spec_jumpdests_from(code@, old_pc) == (if code@[old_pc as int]
                    == JUMPDEST_OP {
                    spec_jumpdests_from(code@, old_pc + spec_step(code@[old_pc as int])).insert(
                        old_pc,
                    )
                } else {
                    spec_jumpdests_from(code@, old_pc + spec_step(code@[old_pc as int]))
                })) by {
                    if old_pc + spec_step(code@[old_pc as int]) > code@.len() {
                        assert(spec_jumpdests_from(
                            code@,
                            old_pc + spec_step(code@[old_pc as int]),
                        ) =~= Set::<nat>::empty());
                    }
                };
                if pc == n {
                    assert(spec_jumpdests_from(code@, pc as nat) =~= Set::<nat>::empty());
                }
            }
        }
        proof {
            assert forall|i: int| 0 <= i < n implies (jumpdest@[i] <==> all.contains(
                i as nat,
            )) by {
                assert(jumpdest@[i] <==> (all.contains(i as nat) && i < pc));
            }
        }
        Ok(Bytecode { code: crate::store::clone_bytes(code), jumpdest })
    }

    /// Whether `pc` is a valid jump destination of this program.
    pub fn is_valid_jumpdest(&self, pc: usize) -> (r: bool)
        requires
            self.wf(),
        ensures
            r <==> spec_jumpdests(self@).contains(pc as nat),
    {
        proof {
            lemma_jumpdests_in_range(self@, 0);
        }
        pc < self.jumpdest.len() && self.jumpdest[pc]
    }
}

/// The ephemeral call context fed to the execution engine: a numeric
/// method selector and opaque input bytes, constructed fresh per call and
/// never persisted.
#[derive(Debug)]
pub struct ExecutionState {
    /// The numeric method selector of this call.
    pub method: u64,
    /// The raw call input bytes.
    pub input: Vec<u8>,
}

impl ExecutionState {
    /// Build the context for one call.
    pub fn new(method: u64, input: Vec<u8>) -> (r: ExecutionState)
        ensures
            r.method == method,
            r.input@ == input@,
    {
        ExecutionState { method, input }
    }
}

} // verus!

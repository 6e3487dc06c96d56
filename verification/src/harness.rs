//! One step of the machine, and the protocol by which a test program runs to
//! its verdict.

use vstd::prelude::*;
use crate::decode::{decode_of, funct3_of, imm12_of, lemma_decode_of, opcode_of};
use crate::fault::{Fault, Trap};
use crate::instruction::Instruction;
use crate::memory::{in_bounds, with_image, word_at};
use crate::semantics::{execute_of, lemma_execute_wf, signal_of, Signal, State};

verus! {

/// The encoding of ECALL, which ends a test program.
pub const ECALL_WORD: u32 = 0x0000_0073;

/// The register in which a test program leaves its result.
pub const RESULT_REGISTER: u32 = 10;

/// The record of one retired instruction: its address, its word, its
/// mnemonic, and what it signals.
#[derive(Clone, Copy, Debug, PartialEq, Eq, Structural)]
pub struct Retired {
    pub pc: u32,
    pub word: u32,
    pub instruction: Instruction,
    pub signal: Signal,
}

/// How a test program ended.
#[derive(Clone, Copy, Debug, PartialEq, Eq, Structural)]
pub enum Verdict {
    /// The result register held zero.
    Pass,
    /// The result register held another value.
    Fail,
}

/// One step from `s`: the word at the program counter is fetched, decoded
/// and executed. The result is the state that follows with the record of the
/// instruction, or the trap that stops the machine: the fetch out of bounds,
/// a word that encodes no instruction, or a fault of the execution.
pub open spec fn step_of(s: State) -> Result<(State, Retired), Trap> {
    if !in_bounds(s.pc, 4) {
        Err(Trap { pc: s.pc, fault: Fault::OutOfBounds { address: s.pc } })
    } else {
        let word = word_at(s.memory, s.pc as int);
        match decode_of(word) {
            None => Err(Trap { pc: s.pc, fault: Fault::IllegalInstruction { word } }),
            Some(instruction) => match execute_of(s, word, instruction) {
                Err(fault) => Err(Trap { pc: s.pc, fault }),
                Ok(after) => Ok(
                    (after, Retired { pc: s.pc, word, instruction, signal: signal_of(instruction) }),
                ),
            },
        }
    }
}

/// The verdict that the state after a step gives, where the word executed
/// was the terminating one: pass where the result register holds zero, fail
/// otherwise. Any other word gives no verdict.
pub open spec fn verdict_of(word: u32, after: State) -> Option<Verdict> {
    if word != ECALL_WORD {
        None
    } else if after.x[RESULT_REGISTER as int] == 0 {
        Some(Verdict::Pass)
    } else {
        Some(Verdict::Fail)
    }
}

/// The outcome of running from `s` for at most `steps` steps: the state
/// reached, and the verdict, or no verdict where the steps ran out, or the
/// trap that stopped the run. The terminating instruction is itself
/// executed before the verdict is read.
pub open spec fn run_of(s: State, steps: nat) -> (State, Result<Option<Verdict>, Trap>)
    decreases steps,
{
    if steps == 0 {
        (s, Ok(None))
    } else {
        match step_of(s) {
            Err(trap) => (s, Err(trap)),
            Ok((after, retired)) => match verdict_of(retired.word, after) {
                Some(verdict) => (after, Ok(Some(verdict))),
                None => run_of(after, (steps - 1) as nat),
            },
        }
    }
}

/// The state in which a test starts: the image in memory from address 0,
/// and the program counter at 0.
pub open spec fn test_start(s: State, image: Seq<u8>) -> State {
    s.with_memory(with_image(s.memory, image)).with_pc(0)
}

/// A step leads from a machine state to a machine state.
pub proof fn lemma_step_wf(s: State)
    requires
        s.wf(),
    ensures
        step_of(s) matches Ok((after, _)) ==> after.wf(),
{
    if in_bounds(s.pc, 4) {
        let word = word_at(s.memory, s.pc as int);
        if let Some(instruction) = decode_of(word) {
            lemma_execute_wf(s, word, instruction);
        }
    }
}

/// A run of any length ends in a machine state.
pub proof fn lemma_run_wf(s: State, steps: nat)
    requires
        s.wf(),
    ensures
        run_of(s, steps).0.wf(),
    decreases steps,
{
    if steps > 0 {
        lemma_step_wf(s);
        if let Ok((after, retired)) = step_of(s) {
            if verdict_of(retired.word, after) is None {
                lemma_run_wf(after, (steps - 1) as nat);
            }
        }
    }
}

/// The terminating word always ends a test: where it stands at the program
/// counter, the step succeeds, changes nothing but the program counter, and
/// gives the verdict of the result register.
pub proof fn lemma_terminating_step(s: State)
    requires
        in_bounds(s.pc, 4),
        word_at(s.memory, s.pc as int) == ECALL_WORD,
    ensures
        step_of(s) == Ok::<(State, Retired), Trap>(
            (
                s.with_pc(s.next_pc()),
                Retired {
                    pc: s.pc,
                    word: ECALL_WORD,
                    instruction: Instruction::ECALL,
                    signal: Signal::EnvironmentCall,
                },
            ),
        ),
        verdict_of(ECALL_WORD, s.with_pc(s.next_pc())) == Some(
            if s.x[RESULT_REGISTER as int] == 0 {
                Verdict::Pass
            } else {
                Verdict::Fail
            },
        ),
{
    assert(opcode_of(0x73) == 0x73 && funct3_of(0x73) == 0 && imm12_of(0x73) == 0)
        by (bit_vector);
    lemma_decode_of(ECALL_WORD, Instruction::ECALL);
}

} // verus!

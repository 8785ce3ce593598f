//! The processor state as a mathematical value, and what fetching and
//! executing an instruction make of it.

use crate::alu::{immediate_selection, register_selection, result_of, sign_extended, wrapped};
use crate::inst::{decoding, lemma_decoding_well_formed, BinaryInstruction, OP_IMM, OP_REG};
use vstd::prelude::*;

verus! {

/// The value that the stack pointer `x2` holds in a new processor.
pub const INITIAL_STACK_POINTER: u32 = 0x2_0000;

/// How the engine dealt with an instruction.
#[derive(Clone, Copy, Debug, PartialEq, Eq, Structural)]
pub enum Outcome {
    /// The instruction selected an operation, which was applied.
    Executed,
    /// The function codes select no operation of the instruction's group:
    /// nothing was done.
    NoOp,
    /// The instruction belongs to a group that the engine does not provide
    /// (a load, store, branch, jump, upper immediate or system instruction):
    /// nothing was done.
    Unimplemented,
    /// The word's opcode belongs to no format: nothing was done.
    Unknown,
}

/// The registers, the loaded program and the program counter.
pub struct State {
    /// The values of `x0` to `x31`.
    pub regs: Seq<u32>,
    /// The instruction memory, one word per slot.
    pub program: Seq<u32>,
    /// The slot of the next instruction to fetch.
    pub pc: nat,
}

/// How the engine deals with `ins`; the registers play no part in it.
pub open spec fn outcome_of(ins: BinaryInstruction) -> Outcome {
    match ins {
        BinaryInstruction::I { opcode, funct3, imm, .. } => if opcode != OP_IMM {
            Outcome::Unimplemented
        } else if immediate_selection(funct3, imm) is Some {
            Outcome::Executed
        } else {
            Outcome::NoOp
        },
        BinaryInstruction::R { opcode, funct3, funct7, .. } => if opcode != OP_REG {
            Outcome::Unimplemented
        } else if register_selection(funct3, funct7) is Some {
            Outcome::Executed
        } else {
            Outcome::NoOp
        },
        BinaryInstruction::Unknown => Outcome::Unknown,
        _ => Outcome::Unimplemented,
    }
}

impl State {
    /// There are 32 registers, `x0` holds zero, and the program counter is
    /// a slot of the program or the slot just behind its end.
    pub open spec fn well_formed(self) -> bool {
        &&& self.regs.len() == 32
        &&& self.regs[0] == 0
        &&& self.pc <= self.program.len()
    }

    /// The state of a new processor: no program, and every register zero
    /// but the stack pointer.
    pub open spec fn initial() -> State {
        State {
            regs: Seq::new(
                32,
                |i: int|
                    if i == 2 {
                        INITIAL_STACK_POINTER
                    } else {
                        0u32
                    },
            ),
            program: Seq::empty(),
            pc: 0,
        }
    }

    /// The state with `program` as its instruction memory and the program
    /// counter at the first slot.
    pub open spec fn loaded(self, program: Seq<u32>) -> State {
        State { regs: self.regs, program, pc: 0 }
    }

    /// The state after a write of `value` to register `rd`: a write to `x0`
    /// is discarded.
    pub open spec fn written(self, rd: int, value: u32) -> State {
        if rd == 0 {
            self
        } else {
            State { regs: self.regs.update(rd, value), program: self.program, pc: self.pc }
        }
    }

    /// Whether the program counter has run off the end of the program.
    pub open spec fn exhausted(self) -> bool {
        self.pc >= self.program.len()
    }

    /// The state after a fetch: the program counter is one slot further.
    pub open spec fn fetched(self) -> State {
        State { regs: self.regs, program: self.program, pc: self.pc + 1 }
    }

    /// The state after `ins` has been executed.
    ///
    /// An instruction of the immediate-arithmetic group or of the
    /// register-register group whose function codes select an operation
    /// writes the operation's result to `rd`. Any other instruction leaves
    /// the state as it is.
    pub open spec fn executed(self, ins: BinaryInstruction) -> State {
        match ins {
            BinaryInstruction::I { opcode, rd, funct3, rs, imm } => {
                match immediate_selection(funct3, imm) {
                    Some((op, operand)) if opcode == OP_IMM => self.written(
                        rd as int,
                        result_of(op, self.regs[rs as int], operand),
                    ),
                    _ => self,
                }
            },
            BinaryInstruction::R { opcode, rd, funct3, rs1, rs2, funct7 } => {
                match register_selection(funct3, funct7) {
                    Some(op) if opcode == OP_REG => self.written(
                        rd as int,
                        result_of(op, self.regs[rs1 as int], self.regs[rs2 as int]),
                    ),
                    _ => self,
                }
            },
            _ => self,
        }
    }

    /// The instruction at the program counter.
    pub open spec fn current(self) -> BinaryInstruction {
        decoding(self.program[self.pc as int])
    }

    /// The state after one cycle: the word at the program counter is
    /// fetched, decoded and executed. An exhausted state stays as it is.
    pub open spec fn stepped(self) -> State {
        if self.exhausted() {
            self
        } else {
            self.fetched().executed(self.current())
        }
    }

    /// How one cycle deals with the instruction at the program counter, or
    /// `None` where the program is exhausted.
    pub open spec fn step_outcome(self) -> Option<Outcome> {
        if self.exhausted() {
            None
        } else {
            Some(outcome_of(self.current()))
        }
    }

    /// The state in which a run ends: cycle follows cycle until the program
    /// is exhausted or an instruction halts the run.
    pub open spec fn ran(self) -> State
        decreases self.program.len() - self.pc,
    {
        if self.exhausted() {
            self
        } else if halts(outcome_of(self.current())) {
            self.stepped()
        } else {
            self.stepped().ran()
        }
    }

    /// The outcome of the instruction that halts a run from this state, or
    /// `None` where the run goes on until the program is exhausted.
    pub open spec fn halt(self) -> Option<Outcome>
        decreases self.program.len() - self.pc,
    {
        if self.exhausted() {
            None
        } else if halts(outcome_of(self.current())) {
            Some(outcome_of(self.current()))
        } else {
            self.stepped().halt()
        }
    }
}

/// Whether an instruction with this outcome halts a run: one that the
/// engine does not provide, or one of no known format.
pub open spec fn halts(outcome: Outcome) -> bool {
    outcome is Unimplemented || outcome is Unknown
}

/// Register `x0` cannot be changed: a write to it leaves the state as it is,
/// and after a write to any register `x0` still reads as zero.
pub proof fn lemma_write_keeps_x0(state: State, rd: int, value: u32)
    requires
        state.well_formed(),
        0 <= rd < 32,
    ensures
        state.written(0, value) == state,
        state.written(rd, value).regs[0] == 0,
        state.written(rd, value).well_formed(),
{
}

/// A write changes the register it names and no other.
pub proof fn lemma_write_changes_one_register(state: State, rd: int, value: u32, other: int)
    requires
        state.well_formed(),
        0 < rd < 32,
        0 <= other < 32,
    ensures
        state.written(rd, value).regs[rd] == value,
        other != rd ==> state.written(rd, value).regs[other] == state.regs[other],
{
}

/// Whatever instruction is executed, `x0` reads as zero afterwards, and
/// neither the program nor the program counter has changed.
pub proof fn lemma_execute_keeps_x0(state: State, ins: BinaryInstruction)
    requires
        state.well_formed(),
        ins.names_registers(),
    ensures
        state.executed(ins).regs[0] == 0,
        state.executed(ins).well_formed(),
        state.executed(ins).program == state.program,
        state.executed(ins).pc == state.pc,
{
}

/// An instruction changes the registers only where its outcome is
/// `Executed`.
pub proof fn lemma_only_executed_changes_state(state: State, ins: BinaryInstruction)
    requires
        outcome_of(ins) != Outcome::Executed,
    ensures
        state.executed(ins) == state,
{
}

/// `addi` writes the sum of the source register and the sign-extended
/// immediate, reduced modulo 2^32, to the destination register.
pub proof fn lemma_addi_adds_sign_extended_immediate(state: State, rd: u8, rs: u8, imm: u16)
    requires
        state.well_formed(),
        0 < rd < 32,
        rs < 32,
    ensures
        ({
            let addi = BinaryInstruction::I { opcode: OP_IMM, rd, funct3: 0, rs, imm };
            let sum = state.regs[rs as int] + sign_extended(imm);
            &&& outcome_of(addi) == Outcome::Executed
            &&& state.executed(addi).regs[rd as int] == (sum % 0x1_0000_0000) as u32
            &&& state.executed(addi).regs == state.regs.update(rd as int, wrapped(sum))
        }),
{
}

/// A cycle on a program that is not exhausted moves the program counter on
/// by exactly one slot, whatever the instruction, and keeps the program; on
/// an exhausted program it changes nothing.
pub proof fn lemma_step_advances_by_one(state: State)
    requires
        state.well_formed(),
    ensures
        state.stepped().well_formed(),
        state.stepped().program == state.program,
        !state.exhausted() ==> state.stepped().pc == state.pc + 1 && state.step_outcome() is Some,
        state.exhausted() ==> state.stepped() == state && state.step_outcome() is None,
{
    if !state.exhausted() {
        lemma_decoding_well_formed(state.program[state.pc as int]);
        lemma_execute_keeps_x0(state.fetched(), state.current());
    }
}

/// A run ends on an exhausted program unless an instruction halts it, in
/// which case that instruction is the one just behind which the program
/// counter then stands. Either way the state is well formed, the program is
/// the one the run began with, and the program counter has not gone back.
pub proof fn lemma_run_ends(state: State)
    requires
        state.well_formed(),
    ensures
        state.ran().well_formed(),
        state.ran().program == state.program,
        state.ran().pc >= state.pc,
        state.halt() is None ==> state.ran().exhausted(),
        state.halt() matches Some(outcome) ==> {
            &&& halts(outcome)
            &&& state.ran().pc > state.pc
            &&& outcome_of(decoding(state.program[state.ran().pc - 1])) == outcome
        },
    decreases state.program.len() - state.pc,
{
    lemma_step_advances_by_one(state);
    if !state.exhausted() && !halts(outcome_of(state.current())) {
        lemma_run_ends(state.stepped());
    }
}

} // verus!

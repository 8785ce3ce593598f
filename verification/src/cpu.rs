//! The processor: a register file, a program and a program counter, driven
//! through the fetch, decode and execute cycle.

use crate::alu::{compute, select_immediate, select_register};
use crate::inst::{decoding, BinaryInstruction, OP_IMM, OP_REG};
use crate::names::{
    abi_index, abi_name, lemma_abi_index_of_abi_name, lemma_abi_name_of_abi_index, register_name,
    same_text,
};
use crate::state::{outcome_of, Outcome, State, INITIAL_STACK_POINTER};
use vstd::prelude::*;

verus! {

/// One register: its two names and the value it holds.
#[derive(Clone, Copy, Debug)]
pub struct Reg<'a> {
    pub name: &'a str,
    pub abi_name: &'a str,
    pub value: u32,
}

/// A processor with 32 registers, an instruction memory and a program
/// counter.
#[derive(Debug)]
pub struct Cpu<'a> {
    regs: [Reg<'a>; 32],
    program: Vec<u32>,
    pc: usize,
}

impl<'a> View for Cpu<'a> {
    type V = State;

    closed spec fn view(&self) -> State {
        State {
            regs: Seq::new(32, |i: int| self.regs[i].value),
            program: self.program@,
            pc: self.pc as nat,
        }
    }
}

impl<'a> Cpu<'a> {
    #[verifier::type_invariant]
    spec fn inv(&self) -> bool {
        &&& self@.well_formed()
        &&& forall|i: int|
            0 <= i < 32 ==> (#[trigger] self.regs[i]).name@ == register_name(i)
                && self.regs[i].abi_name@ == abi_name(i)
    }

    /// A processor without a program: every register holds zero but the
    /// stack pointer `x2`.
    pub fn new() -> (cpu: Cpu<'a>)
        ensures
            cpu@ == State::initial(),
            cpu@.well_formed(),
    {
        let regs: [Reg; 32] = [
            Reg { name: "x0", abi_name: "zero", value: 0 },
            Reg { name: "x1", abi_name: "ra", value: 0 },
            Reg { name: "x2", abi_name: "sp", value: INITIAL_STACK_POINTER },
            Reg { name: "x3", abi_name: "gp", value: 0 },
            Reg { name: "x4", abi_name: "tp", value: 0 },
            Reg { name: "x5", abi_name: "t0", value: 0 },
            Reg { name: "x6", abi_name: "t1", value: 0 },
            Reg { name: "x7", abi_name: "t2", value: 0 },
            Reg { name: "x8", abi_name: "s0", value: 0 },
            Reg { name: "x9", abi_name: "s1", value: 0 },
            Reg { name: "x10", abi_name: "a0", value: 0 },
            Reg { name: "x11", abi_name: "a1", value: 0 },
            Reg { name: "x12", abi_name: "a2", value: 0 },
            Reg { name: "x13", abi_name: "a3", value: 0 },
            Reg { name: "x14", abi_name: "a4", value: 0 },
            Reg { name: "x15", abi_name: "a5", value: 0 },
            Reg { name: "x16", abi_name: "a6", value: 0 },
            Reg { name: "x17", abi_name: "a7", value: 0 },
            Reg { name: "x18", abi_name: "s2", value: 0 },
            Reg { name: "x19", abi_name: "s3", value: 0 },
            Reg { name: "x20", abi_name: "s4", value: 0 },
            Reg { name: "x21", abi_name: "s5", value: 0 },
            Reg { name: "x22", abi_name: "s6", value: 0 },
            Reg { name: "x23", abi_name: "s7", value: 0 },
            Reg { name: "x24", abi_name: "s8", value: 0 },
            Reg { name: "x25", abi_name: "s9", value: 0 },
            Reg { name: "x26", abi_name: "s10", value: 0 },
            Reg { name: "x27", abi_name: "s11", value: 0 },
            Reg { name: "x28", abi_name: "t3", value: 0 },
            Reg { name: "x29", abi_name: "t4", value: 0 },
            Reg { name: "x30", abi_name: "t5", value: 0 },
            Reg { name: "x31", abi_name: "t6", value: 0 },
        ];
        let cpu = Cpu { regs, program: Vec::new(), pc: 0 };
        assert(cpu@.regs =~= State::initial().regs);
        cpu
    }

    /// Makes `prog` the instruction memory and sets the program counter to
    /// its first slot. The registers keep their values.
    pub fn load_program(&mut self, prog: Vec<u32>)
        ensures
            final(self)@ == old(self)@.loaded(prog@),
            final(self)@.well_formed(),
    {
        proof {
            use_type_invariant(&*self);
        }
        self.pc = 0;
        self.program = prog;
    }

    /// Register `index` with its names and its value.
    pub fn reg(&self, index: usize) -> (reg: Reg<'a>)
        requires
            index < 32,
        ensures
            reg.value == self@.regs[index as int],
            reg.name@ == register_name(index as int),
            reg.abi_name@ == abi_name(index as int),
            index == 0 ==> reg.value == 0,
            self@.well_formed(),
    {
        proof {
            use_type_invariant(self);
        }
        self.regs[index]
    }

    /// The register that the calling convention names `name`, or `None`
    /// where it gives no register that name.
    pub fn reg_by_abi_name(&self, name: &str) -> (found: Option<Reg<'a>>)
        ensures
            match abi_index(name@) {
                Some(index) => found matches Some(reg) && reg.value == self@.regs[index]
                    && reg.name@ == register_name(index) && reg.abi_name@ == name@,
                None => found is None,
            },
    {
        let mut index: usize = 0;
        while index < 32
            invariant
                index <= 32,
                forall|i: int| 0 <= i < index ==> abi_name(i) != name@,
            decreases 32 - index,
        {
            let reg = self.reg(index);
            if same_text(reg.abi_name, name) {
                proof {
                    lemma_abi_index_of_abi_name(index as int);
                }
                return Some(reg);
            }
            index += 1;
        }
        proof {
            if abi_index(name@) is Some {
                lemma_abi_name_of_abi_index(name@);
            }
        }
        None
    }

    /// Writes `value` to register `index`; a write to `x0` is discarded.
    pub fn write_reg(&mut self, index: usize, value: u32)
        requires
            index < 32,
        ensures
            final(self)@ == old(self)@.written(index as int, value),
            final(self)@.well_formed(),
    {
        proof {
            use_type_invariant(&*self);
        }
        if index != 0 {
            self.regs[index].value = value;
            assert(self@.regs =~= old(self)@.regs.update(index as int, value));
        }
    }

    /// Reads the word at the program counter and moves the counter one slot
    /// on, or returns `None` and changes nothing where the program is
    /// exhausted.
    pub fn fetch(&mut self) -> (word: Option<u32>)
        ensures
            old(self)@.exhausted() ==> word is None && final(self)@ == old(self)@,
            !old(self)@.exhausted() ==> word == Some(old(self)@.program[old(self)@.pc as int])
                && final(self)@ == old(self)@.fetched(),
            final(self)@.well_formed(),
    {
        proof {
            use_type_invariant(&*self);
        }
        if self.pc < self.program.len() {
            let ins: u32 = self.program[self.pc];
            self.pc += 1;
            Some(ins)
        } else {
            None
        }
    }

    /// Decodes `ins`; the processor plays no part in it.
    pub fn decode(&self, ins: u32) -> (decoded: BinaryInstruction)
        ensures
            decoded == decoding(ins),
            decoded.well_formed(),
            decoded.names_registers(),
    {
        BinaryInstruction::parse(ins)
    }

    /// Applies `ins` to the registers and tells how it was dealt with.
    ///
    /// The program counter stays where the fetch has left it. Nothing but
    /// register `rd` changes, and that only where the outcome is `Executed`.
    pub fn execute(&mut self, ins: BinaryInstruction) -> (outcome: Outcome)
        requires
            ins.names_registers(),
        ensures
            final(self)@ == old(self)@.executed(ins),
            outcome == outcome_of(ins),
            final(self)@.well_formed(),
    {
        proof {
            use_type_invariant(&*self);
        }
        match ins {
            BinaryInstruction::I { opcode, rd, funct3, rs, imm } => {
                if opcode != OP_IMM {
                    return Outcome::Unimplemented;
                }
                match select_immediate(funct3, imm) {
                    Some((op, operand)) => {
                        let source: u32 = self.reg(rs as usize).value;
                        self.write_reg(rd as usize, compute(op, source, operand));
                        Outcome::Executed
                    },
                    None => Outcome::NoOp,
                }
            },
            BinaryInstruction::R { opcode, rd, funct3, rs1, rs2, funct7 } => {
                if opcode != OP_REG {
                    return Outcome::Unimplemented;
                }
                match select_register(funct3, funct7) {
                    Some(op) => {
                        let left: u32 = self.reg(rs1 as usize).value;
                        let right: u32 = self.reg(rs2 as usize).value;
                        self.write_reg(rd as usize, compute(op, left, right));
                        Outcome::Executed
                    },
                    None => Outcome::NoOp,
                }
            },
            BinaryInstruction::U { .. } => Outcome::Unimplemented,
            BinaryInstruction::S { .. } => Outcome::Unimplemented,
            BinaryInstruction::B { .. } => Outcome::Unimplemented,
            BinaryInstruction::J { .. } => Outcome::Unimplemented,
            BinaryInstruction::Unknown => Outcome::Unknown,
        }
    }

    /// Runs one cycle: fetches the word at the program counter, decodes it
    /// and executes it. Returns `None` and changes nothing where the program
    /// is exhausted.
    pub fn step(&mut self) -> (outcome: Option<Outcome>)
        ensures
            final(self)@ == old(self)@.stepped(),
            outcome == old(self)@.step_outcome(),
            final(self)@.well_formed(),
    {
        match self.fetch() {
            Some(word) => {
                let ins = self.decode(word);
                Some(self.execute(ins))
            },
            None => None,
        }
    }

    /// Runs cycle after cycle until the program is exhausted or an
    /// instruction halts the run, and returns the outcome of that
    /// instruction, or `None` where the program is exhausted.
    ///
    /// The instruction that halts the run has been fetched: a further run
    /// goes on behind it.
    pub fn run(&mut self) -> (halt: Option<Outcome>)
        ensures
            final(self)@ == old(self)@.ran(),
            halt == old(self)@.halt(),
            final(self)@.well_formed(),
    {
        proof {
            use_type_invariant(&*self);
        }
        loop
            invariant
                self@.well_formed(),
                self@.ran() == old(self)@.ran(),
                self@.halt() == old(self)@.halt(),
            decreases self@.program.len() - self@.pc,
        {
            match self.step() {
                Some(Outcome::Unimplemented) => {
                    return Some(Outcome::Unimplemented);
                },
                Some(Outcome::Unknown) => {
                    return Some(Outcome::Unknown);
                },
                Some(_) => {},
                None => {
                    return None;
                },
            }
        }
    }

    /// The slot of the next instruction to fetch.
    pub fn pc(&self) -> (pc: usize)
        ensures
            pc == self@.pc,
            self@.well_formed(),
    {
        proof {
            use_type_invariant(self);
        }
        self.pc
    }

    /// The instruction memory.
    pub fn program(&self) -> (program: &Vec<u32>)
        ensures
            program@ == self@.program,
            self@.well_formed(),
    {
        proof {
            use_type_invariant(self);
        }
        &self.program
    }
}

} // verus!

//! Instruction formats of the RV32I base encoding and the decoder that
//! splits a 32-bit word into the fields of its format.

use vstd::arithmetic::power2::{lemma2_to64, pow2};
use vstd::prelude::*;

verus! {

/// Opcode of the arithmetic instructions with an immediate operand.
pub const OP_IMM: u8 = 0b0010011;

/// Opcode of the loads.
pub const OP_LOAD: u8 = 0b0000011;

/// Opcode of `jalr`.
pub const OP_JALR: u8 = 0b1100111;

/// Opcode of the system instructions.
pub const OP_SYSTEM: u8 = 0b1110011;

/// Opcode of `auipc`.
pub const OP_AUIPC: u8 = 0b0010111;

/// Opcode of `lui`.
pub const OP_LUI: u8 = 0b0110111;

/// Opcode of the stores.
pub const OP_STORE: u8 = 0b0100011;

/// Opcode of the conditional branches.
pub const OP_BRANCH: u8 = 0b1100011;

/// Opcode of `jal`.
pub const OP_JAL: u8 = 0b1101111;

/// Opcode of the register-register arithmetic instructions.
pub const OP_REG: u8 = 0b0110011;

/// A 32-bit instruction word, split into the fields of its format.
///
/// Every field holds the raw bits of the encoding as an unsigned number:
/// immediates are neither sign-extended nor reassembled.
#[allow(inconsistent_fields)]
#[derive(Clone, Copy, Debug, PartialEq, Eq, Structural)]
pub enum BinaryInstruction {
    I { opcode: u8, rd: u8, funct3: u8, rs: u8, imm: u16 },
    U { opcode: u8, rd: u8, imm: u32 },
    R { opcode: u8, rd: u8, funct3: u8, rs1: u8, rs2: u8, funct7: u8 },
    S { opcode: u8, imm1: u8, funct3: u8, rs1: u8, rs2: u8, imm2: u8 },
    B { opcode: u8, imm1: u8, funct3: u8, rs1: u8, rs2: u8, imm2: u8 },
    J { opcode: u8, rd: u8, imm: u32 },
    Unknown,
}

/// The number that the `width` bits of `word` from bit `lo` upwards spell.
pub open spec fn bit_field(word: u32, lo: nat, width: nat) -> nat {
    (word as nat / pow2(lo)) % pow2(width)
}

/// Whether `opcode` selects the I format.
pub open spec fn is_i_opcode(opcode: u8) -> bool {
    opcode == OP_IMM || opcode == OP_LOAD || opcode == OP_JALR || opcode == OP_SYSTEM
}

/// Whether `opcode` selects the U format.
pub open spec fn is_u_opcode(opcode: u8) -> bool {
    opcode == OP_AUIPC || opcode == OP_LUI
}

/// The instruction that `word` encodes: the low seven bits are the opcode,
/// the opcode alone fixes the format, and each field is the bit range that the
/// format assigns to it.
pub open spec fn decoding(word: u32) -> BinaryInstruction {
    let opcode = bit_field(word, 0, 7) as u8;
    let rd = bit_field(word, 7, 5) as u8;
    let funct3 = bit_field(word, 12, 3) as u8;
    let rs1 = bit_field(word, 15, 5) as u8;
    let rs2 = bit_field(word, 20, 5) as u8;
    let funct7 = bit_field(word, 25, 7) as u8;
    if is_i_opcode(opcode) {
        BinaryInstruction::I { opcode, rd, funct3, rs: rs1, imm: bit_field(word, 20, 12) as u16 }
    } else if is_u_opcode(opcode) {
        BinaryInstruction::U { opcode, rd, imm: bit_field(word, 12, 20) as u32 }
    } else if opcode == OP_STORE {
        BinaryInstruction::S { opcode, imm1: rd, funct3, rs1, rs2, imm2: funct7 }
    } else if opcode == OP_BRANCH {
        BinaryInstruction::B { opcode, imm1: rd, funct3, rs1, rs2, imm2: funct7 }
    } else if opcode == OP_JAL {
        BinaryInstruction::J { opcode, rd, imm: bit_field(word, 12, 20) as u32 }
    } else if opcode == OP_REG {
        BinaryInstruction::R { opcode, rd, funct3, rs1, rs2, funct7 }
    } else {
        BinaryInstruction::Unknown
    }
}

/// Whether `opcode` belongs to one of the six formats.
pub open spec fn is_known_opcode(opcode: u8) -> bool {
    is_i_opcode(opcode) || is_u_opcode(opcode) || opcode == OP_STORE || opcode == OP_BRANCH
        || opcode == OP_JAL || opcode == OP_REG
}

/// `value` moved up to the bits from `lo` upwards.
pub open spec fn placed(value: nat, lo: nat) -> nat {
    value * pow2(lo)
}

/// The word whose fields are those of `ins`, each at the bits that the format
/// assigns to it. `Unknown` stands for no word in particular and is given the
/// word zero, whose opcode belongs to no format.
pub open spec fn encoding(ins: BinaryInstruction) -> u32 {
    match ins {
        BinaryInstruction::I { opcode, rd, funct3, rs, imm } => (placed(opcode as nat, 0) + placed(
            rd as nat,
            7,
        ) + placed(funct3 as nat, 12) + placed(rs as nat, 15) + placed(imm as nat, 20)) as u32,
        BinaryInstruction::U { opcode, rd, imm } | BinaryInstruction::J { opcode, rd, imm } => (
        placed(opcode as nat, 0) + placed(rd as nat, 7) + placed(imm as nat, 12)) as u32,
        BinaryInstruction::R { opcode, rd, funct3, rs1, rs2, funct7 } => (placed(opcode as nat, 0)
            + placed(rd as nat, 7) + placed(funct3 as nat, 12) + placed(rs1 as nat, 15) + placed(
            rs2 as nat,
            20,
        ) + placed(funct7 as nat, 25)) as u32,
        BinaryInstruction::S { opcode, imm1, funct3, rs1, rs2, imm2 } | BinaryInstruction::B {
            opcode,
            imm1,
            funct3,
            rs1,
            rs2,
            imm2,
        } => (placed(opcode as nat, 0) + placed(imm1 as nat, 7) + placed(funct3 as nat, 12)
            + placed(rs1 as nat, 15) + placed(rs2 as nat, 20) + placed(imm2 as nat, 25)) as u32,
        BinaryInstruction::Unknown => 0,
    }
}

impl BinaryInstruction {
    /// Whether every register that the instruction names is one of `x0` to
    /// `x31`.
    pub open spec fn names_registers(self) -> bool {
        match self {
            BinaryInstruction::I { rd, rs, .. } => rd < 32 && rs < 32,
            BinaryInstruction::U { rd, .. } => rd < 32,
            BinaryInstruction::R { rd, rs1, rs2, .. } => rd < 32 && rs1 < 32 && rs2 < 32,
            BinaryInstruction::S { rs1, rs2, .. } => rs1 < 32 && rs2 < 32,
            BinaryInstruction::B { rs1, rs2, .. } => rs1 < 32 && rs2 < 32,
            BinaryInstruction::J { rd, .. } => rd < 32,
            BinaryInstruction::Unknown => true,
        }
    }

    /// Whether the instruction is one that a word can encode: the opcode
    /// belongs to the variant's format, and every field fits the bits that
    /// the format assigns to it.
    pub open spec fn well_formed(self) -> bool {
        match self {
            BinaryInstruction::I { opcode, rd, funct3, rs, imm } => is_i_opcode(opcode) && rd < 32
                && funct3 < 8 && rs < 32 && imm < 0x1000,
            BinaryInstruction::U { opcode, rd, imm } => is_u_opcode(opcode) && rd < 32 && imm
                < 0x10_0000,
            BinaryInstruction::R { opcode, rd, funct3, rs1, rs2, funct7 } => opcode == OP_REG && rd
                < 32 && funct3 < 8 && rs1 < 32 && rs2 < 32 && funct7 < 0x80,
            BinaryInstruction::S { opcode, imm1, funct3, rs1, rs2, imm2 } => opcode == OP_STORE
                && imm1 < 32 && funct3 < 8 && rs1 < 32 && rs2 < 32 && imm2 < 0x80,
            BinaryInstruction::B { opcode, imm1, funct3, rs1, rs2, imm2 } => opcode == OP_BRANCH
                && imm1 < 32 && funct3 < 8 && rs1 < 32 && rs2 < 32 && imm2 < 0x80,
            BinaryInstruction::J { opcode, rd, imm } => opcode == OP_JAL && rd < 32 && imm
                < 0x10_0000,
            BinaryInstruction::Unknown => true,
        }
    }
}

/// Each bit range of a word holds a number that fits its width.
proof fn lemma_field_bounds(word: u32)
    ensures
        bit_field(word, 0, 7) < 0x80,
        bit_field(word, 7, 5) < 0x20,
        bit_field(word, 12, 3) < 0x8,
        bit_field(word, 15, 5) < 0x20,
        bit_field(word, 20, 5) < 0x20,
        bit_field(word, 25, 7) < 0x80,
        bit_field(word, 20, 12) < 0x1000,
        bit_field(word, 12, 20) < 0x10_0000,
{
    lemma2_to64();
}

/// What the decoder yields is an instruction that a word can encode, and it
/// names registers that exist.
pub proof fn lemma_decoding_well_formed(word: u32)
    ensures
        decoding(word).well_formed(),
        decoding(word).names_registers(),
{
    lemma_field_bounds(word);
}

/// A word decodes to `Unknown` exactly if its low seven bits are the opcode
/// of no format.
pub proof fn lemma_unknown_outside_table(word: u32)
    ensures
        decoding(word) is Unknown <==> !is_known_opcode(bit_field(word, 0, 7) as u8),
{
}

/// Decoding gives back what was encoded: for every instruction that a word
/// can encode, the word built from its opcode and fields decodes to the same
/// opcode and fields.
pub proof fn lemma_decoding_inverts_encoding(ins: BinaryInstruction)
    requires
        ins.well_formed(),
    ensures
        decoding(encoding(ins)) == ins,
{
    lemma2_to64();
    match ins {
        BinaryInstruction::I { opcode, rd, funct3, rs, imm } => {
            lemma_word_of_five_fields(opcode, rd, funct3, rs, imm);
        },
        BinaryInstruction::U { opcode, rd, imm } => {
            lemma_word_of_three_fields(opcode, rd, imm);
        },
        BinaryInstruction::J { opcode, rd, imm } => {
            lemma_word_of_three_fields(opcode, rd, imm);
        },
        BinaryInstruction::R { opcode, rd, funct3, rs1, rs2, funct7 } => {
            lemma_word_of_six_fields(opcode, rd, funct3, rs1, rs2, funct7);
        },
        BinaryInstruction::S { opcode, imm1, funct3, rs1, rs2, imm2 } => {
            lemma_word_of_six_fields(opcode, imm1, funct3, rs1, rs2, imm2);
        },
        BinaryInstruction::B { opcode, imm1, funct3, rs1, rs2, imm2 } => {
            lemma_word_of_six_fields(opcode, imm1, funct3, rs1, rs2, imm2);
        },
        BinaryInstruction::Unknown => {},
    }
}

/// Encoding gives back what was decoded: the fields of a format cover all 32
/// bits, so a word of a known format is built from its decoding.
pub proof fn lemma_encoding_inverts_decoding(word: u32)
    requires
        !(decoding(word) is Unknown),
    ensures
        encoding(decoding(word)) == word,
{
    lemma2_to64();
    assert({
        &&& word == (word / 0x1) % 0x80 + ((word / 0x80) % 0x20) * 0x80 + ((word / 0x1000) % 0x8)
            * 0x1000 + ((word / 0x8000) % 0x20) * 0x8000 + ((word / 0x100000) % 0x1000) * 0x100000
        &&& word == (word / 0x1) % 0x80 + ((word / 0x80) % 0x20) * 0x80 + ((word / 0x1000)
            % 0x100000) * 0x1000
        &&& word == (word / 0x1) % 0x80 + ((word / 0x80) % 0x20) * 0x80 + ((word / 0x1000) % 0x8)
            * 0x1000 + ((word / 0x8000) % 0x20) * 0x8000 + ((word / 0x100000) % 0x20) * 0x100000
            + ((word / 0x2000000) % 0x80) * 0x2000000
    }) by (bit_vector);
}

/// The bit ranges of the I format hold the fields that were placed there.
proof fn lemma_word_of_five_fields(opcode: u8, rd: u8, funct3: u8, rs: u8, imm: u16)
    requires
        opcode < 0x80,
        rd < 0x20,
        funct3 < 0x8,
        rs < 0x20,
        imm < 0x1000,
    ensures
        ({
            let sum = placed(opcode as nat, 0) + placed(rd as nat, 7) + placed(funct3 as nat, 12)
                + placed(rs as nat, 15) + placed(imm as nat, 20);
            let word = sum as u32;
            &&& sum < 0x1_0000_0000
            &&& bit_field(word, 0, 7) == opcode
            &&& bit_field(word, 7, 5) == rd
            &&& bit_field(word, 12, 3) == funct3
            &&& bit_field(word, 15, 5) == rs
            &&& bit_field(word, 20, 12) == imm
        }),
{
    lemma2_to64();
    let word: u32 = (opcode + rd * 0x80 + funct3 * 0x1000 + rs * 0x8000 + imm * 0x100000) as u32;
    assert({
        &&& (word / 0x1) % 0x80 == opcode
        &&& (word / 0x80) % 0x20 == rd
        &&& (word / 0x1000) % 0x8 == funct3
        &&& (word / 0x8000) % 0x20 == rs
        &&& (word / 0x100000) % 0x1000 == imm
    }) by (bit_vector)
        requires
            opcode < 0x80,
            rd < 0x20,
            funct3 < 0x8,
            rs < 0x20,
            imm < 0x1000,
            word == opcode + rd * 0x80 + funct3 * 0x1000 + rs * 0x8000 + imm * 0x100000,
    ;
}

/// The bit ranges of the U and J formats hold the fields that were placed
/// there.
proof fn lemma_word_of_three_fields(opcode: u8, rd: u8, imm: u32)
    requires
        opcode < 0x80,
        rd < 0x20,
        imm < 0x10_0000,
    ensures
        ({
            let sum = placed(opcode as nat, 0) + placed(rd as nat, 7) + placed(imm as nat, 12);
            let word = sum as u32;
            &&& sum < 0x1_0000_0000
            &&& bit_field(word, 0, 7) == opcode
            &&& bit_field(word, 7, 5) == rd
            &&& bit_field(word, 12, 20) == imm
        }),
{
    lemma2_to64();
    let word: u32 = (opcode + rd * 0x80 + imm * 0x1000) as u32;
    assert({
        &&& (word / 0x1) % 0x80 == opcode
        &&& (word / 0x80) % 0x20 == rd
        &&& (word / 0x1000) % 0x100000 == imm
    }) by (bit_vector)
        requires
            opcode < 0x80,
            rd < 0x20,
            imm < 0x10_0000,
            word == opcode + rd * 0x80 + imm * 0x1000,
    ;
}

/// The bit ranges of the R, S and B formats hold the fields that were placed
/// there.
proof fn lemma_word_of_six_fields(opcode: u8, low: u8, funct3: u8, rs1: u8, rs2: u8, high: u8)
    requires
        opcode < 0x80,
        low < 0x20,
        funct3 < 0x8,
        rs1 < 0x20,
        rs2 < 0x20,
        high < 0x80,
    ensures
        ({
            let sum = placed(opcode as nat, 0) + placed(low as nat, 7) + placed(funct3 as nat, 12)
                + placed(rs1 as nat, 15) + placed(rs2 as nat, 20) + placed(high as nat, 25);
            let word = sum as u32;
            &&& sum < 0x1_0000_0000
            &&& bit_field(word, 0, 7) == opcode
            &&& bit_field(word, 7, 5) == low
            &&& bit_field(word, 12, 3) == funct3
            &&& bit_field(word, 15, 5) == rs1
            &&& bit_field(word, 20, 5) == rs2
            &&& bit_field(word, 25, 7) == high
        }),
{
    lemma2_to64();
    let word: u32 = (opcode + low * 0x80 + funct3 * 0x1000 + rs1 * 0x8000 + rs2 * 0x100000 + high
        * 0x2000000) as u32;
    assert({
        &&& (word / 0x1) % 0x80 == opcode
        &&& (word / 0x80) % 0x20 == low
        &&& (word / 0x1000) % 0x8 == funct3
        &&& (word / 0x8000) % 0x20 == rs1
        &&& (word / 0x100000) % 0x20 == rs2
        &&& (word / 0x2000000) % 0x80 == high
    }) by (bit_vector)
        requires
            opcode < 0x80,
            low < 0x20,
            funct3 < 0x8,
            rs1 < 0x20,
            rs2 < 0x20,
            high < 0x80,
            word == opcode + low * 0x80 + funct3 * 0x1000 + rs1 * 0x8000 + rs2 * 0x100000 + high
                * 0x2000000,
    ;
}

/// Shifts and masks read the bit ranges that `bit_field` names.
proof fn lemma_fields_by_shift_and_mask(word: u32)
    ensures
        word & 0b1111111 == bit_field(word, 0, 7),
        (word >> 7) & 0b11111 == bit_field(word, 7, 5),
        (word >> 12) & 0b111 == bit_field(word, 12, 3),
        (word >> 15) & 0b11111 == bit_field(word, 15, 5),
        (word >> 20) & 0b11111 == bit_field(word, 20, 5),
        word >> 25 == bit_field(word, 25, 7),
        word >> 20 == bit_field(word, 20, 12),
        word >> 12 == bit_field(word, 12, 20),
{
    lemma2_to64();
    assert({
        &&& word & 0b1111111 == (word / 0x1) % 0x80
        &&& (word >> 7) & 0b11111 == (word / 0x80) % 0x20
        &&& (word >> 12) & 0b111 == (word / 0x1000) % 0x8
        &&& (word >> 15) & 0b11111 == (word / 0x8000) % 0x20
        &&& (word >> 20) & 0b11111 == (word / 0x100000) % 0x20
        &&& word >> 25 == (word / 0x2000000) % 0x80
        &&& word >> 20 == (word / 0x100000) % 0x1000
        &&& word >> 12 == (word / 0x1000) % 0x100000
    }) by (bit_vector);
}

impl BinaryInstruction {
    /// Decodes `ins`. Every word decodes: one whose opcode belongs to no
    /// format gives `Unknown`.
    pub fn parse(ins: u32) -> (decoded: BinaryInstruction)
        ensures
            decoded == decoding(ins),
            decoded.well_formed(),
            decoded.names_registers(),
    {
        proof {
            lemma2_to64();
            lemma_fields_by_shift_and_mask(ins);
            lemma_decoding_well_formed(ins);
        }
        let opcode: u32 = (ins) & 0b1111111;
        match opcode {
            0b0010011 | 0b0000011 | 0b1100111 | 0b1110011 => {
                let rd: u32 = (ins >> 7) & 0b11111;
                let funct3: u32 = (ins >> 12) & 0b111;
                let rs: u32 = (ins >> 15) & 0b11111;
                let imm: u32 = ins >> 20;
                BinaryInstruction::I {
                    opcode: opcode as u8,
                    rd: rd as u8,
                    funct3: funct3 as u8,
                    rs: rs as u8,
                    imm: imm as u16,
                }
            },
            0b0010111 | 0b0110111 => {
                let rd: u32 = (ins >> 7) & 0b11111;
                let imm: u32 = ins >> 12;
                BinaryInstruction::U { opcode: opcode as u8, rd: rd as u8, imm: imm }
            },
            0b0100011 => {
                let imm1: u32 = (ins >> 7) & 0b11111;
                let funct3: u32 = (ins >> 12) & 0b111;
                let rs1: u32 = (ins >> 15) & 0b11111;
                let rs2: u32 = (ins >> 20) & 0b11111;
                let imm2: u32 = ins >> 25;
                BinaryInstruction::S {
                    opcode: opcode as u8,
                    imm1: imm1 as u8,
                    funct3: funct3 as u8,
                    rs1: rs1 as u8,
                    rs2: rs2 as u8,
                    imm2: imm2 as u8,
                }
            },
            0b1100011 => {
                let imm1: u32 = (ins >> 7) & 0b11111;
                let funct3: u32 = (ins >> 12) & 0b111;
                let rs1: u32 = (ins >> 15) & 0b11111;
                let rs2: u32 = (ins >> 20) & 0b11111;
                let imm2: u32 = ins >> 25;
                BinaryInstruction::B {
                    opcode: opcode as u8,
                    imm1: imm1 as u8,
                    funct3: funct3 as u8,
                    rs1: rs1 as u8,
                    rs2: rs2 as u8,
                    imm2: imm2 as u8,
                }
            },
            0b1101111 => {
                let rd: u32 = (ins >> 7) & 0b11111;
                let imm: u32 = ins >> 12;
                BinaryInstruction::J { opcode: opcode as u8, rd: rd as u8, imm: imm }
            },
            0b0110011 => {
                let rd: u32 = (ins >> 7) & 0b11111;
                let funct3: u32 = (ins >> 12) & 0b111;
                let rs1: u32 = (ins >> 15) & 0b11111;
                let rs2: u32 = (ins >> 20) & 0b11111;
                let funct7: u32 = ins >> 25;
                BinaryInstruction::R {
                    opcode: opcode as u8,
                    rd: rd as u8,
                    funct3: funct3 as u8,
                    rs1: rs1 as u8,
                    rs2: rs2 as u8,
                    funct7: funct7 as u8,
                }
            },
            _ => BinaryInstruction::Unknown,
        }
    }
}

} // verus!

//! The integer operations of the base instruction set, and the tables that
//! select one of them from the function codes of an instruction.

use vstd::arithmetic::div_mod::{
    lemma_div_nonincreasing, lemma_div_pos_is_pos, lemma_fundamental_div_mod,
    lemma_fundamental_div_mod_converse, lemma_mod_bound, lemma_mul_mod_noop_left,
};
use vstd::arithmetic::power2::{lemma2_to64, lemma_pow2_pos, lemma_pow2_unfold, pow2};
use vstd::bits::lemma_u32_shr_is_div;
use vstd::prelude::*;

verus! {

/// An operation on two 32-bit operands that yields a 32-bit result.
#[derive(Clone, Copy, Debug, PartialEq, Eq, Structural)]
pub enum Operation {
    Add,
    Sub,
    Xor,
    Or,
    And,
    Sll,
    Srl,
    Sra,
    Slt,
    Sltu,
}

/// `value` reduced modulo 2^32.
pub open spec fn wrapped(value: int) -> u32 {
    (value % 0x1_0000_0000) as u32
}

/// The number that `word` stands for in two's complement.
pub open spec fn signed_value(word: u32) -> int {
    if word < 0x8000_0000 {
        word as int
    } else {
        word as int - 0x1_0000_0000
    }
}

/// The low twelve bits of `imm` as an unsigned number.
pub open spec fn zero_extended(imm: u16) -> u32 {
    (imm % 0x1000) as u32
}

/// The number that the low twelve bits of `imm` stand for in two's
/// complement: bit 11 is the sign.
pub open spec fn immediate_value(imm: u16) -> int {
    if imm % 0x1000 < 0x800 {
        (imm % 0x1000) as int
    } else {
        (imm % 0x1000) as int - 0x1000
    }
}

/// The 32-bit word that stands for the same number as the 12-bit immediate.
pub open spec fn sign_extended(imm: u16) -> u32 {
    wrapped(immediate_value(imm))
}

/// What `op` yields on the operands `a` and `b`.
///
/// Sums and differences wrap around at 2^32. A shift goes by the low five
/// bits of `b`: to the left it multiplies by that power of two and wraps
/// around, to the right it divides by it and rounds down, the logical shift
/// reading `a` as an unsigned number and the arithmetic shift as a signed
/// one. The two comparisons yield 1 or 0.
pub open spec fn result_of(op: Operation, a: u32, b: u32) -> u32 {
    match op {
        Operation::Add => wrapped(a + b),
        Operation::Sub => wrapped(a - b),
        Operation::Xor => a ^ b,
        Operation::Or => a | b,
        Operation::And => a & b,
        Operation::Sll => wrapped(a * pow2((b % 32) as nat)),
        Operation::Srl => (a as nat / pow2((b % 32) as nat)) as u32,
        Operation::Sra => wrapped(signed_value(a) / (pow2((b % 32) as nat) as int)),
        Operation::Slt => if signed_value(a) < signed_value(b) {
            1
        } else {
            0
        },
        Operation::Sltu => if a < b {
            1
        } else {
            0
        },
    }
}

/// The operation and second operand that `funct3` and the immediate select
/// in the immediate-arithmetic group, or `None` where they select nothing.
///
/// Addition and the signed comparison take the sign-extended immediate, the
/// logical operations and the unsigned comparison its twelve bits as they
/// are. A shift takes its amount from the low five bits, and the bits above
/// them tell the kinds of shift apart.
pub open spec fn immediate_selection(funct3: u8, imm: u16) -> Option<(Operation, u32)> {
    let amount = (imm % 32) as u32;
    let funct7 = imm / 32;
    if funct3 == 0x0 {
        Some((Operation::Add, sign_extended(imm)))
    } else if funct3 == 0x4 {
        Some((Operation::Xor, zero_extended(imm)))
    } else if funct3 == 0x6 {
        Some((Operation::Or, zero_extended(imm)))
    } else if funct3 == 0x7 {
        Some((Operation::And, zero_extended(imm)))
    } else if funct3 == 0x1 && funct7 == 0x00 {
        Some((Operation::Sll, amount))
    } else if funct3 == 0x5 && funct7 == 0x00 {
        Some((Operation::Srl, amount))
    } else if funct3 == 0x5 && funct7 == 0x20 {
        Some((Operation::Sra, amount))
    } else if funct3 == 0x2 {
        Some((Operation::Slt, sign_extended(imm)))
    } else if funct3 == 0x3 {
        Some((Operation::Sltu, zero_extended(imm)))
    } else {
        None
    }
}

/// The operation that `funct3` and `funct7` select in the register-register
/// group, or `None` where they select nothing.
pub open spec fn register_selection(funct3: u8, funct7: u8) -> Option<Operation> {
    if funct7 == 0x00 {
        if funct3 == 0x0 {
            Some(Operation::Add)
        } else if funct3 == 0x1 {
            Some(Operation::Sll)
        } else if funct3 == 0x2 {
            Some(Operation::Slt)
        } else if funct3 == 0x3 {
            Some(Operation::Sltu)
        } else if funct3 == 0x4 {
            Some(Operation::Xor)
        } else if funct3 == 0x5 {
            Some(Operation::Srl)
        } else if funct3 == 0x6 {
            Some(Operation::Or)
        } else if funct3 == 0x7 {
            Some(Operation::And)
        } else {
            None
        }
    } else if funct7 == 0x20 {
        if funct3 == 0x0 {
            Some(Operation::Sub)
        } else if funct3 == 0x5 {
            Some(Operation::Sra)
        } else {
            None
        }
    } else {
        None
    }
}

/// A word that wraps a number of the signed 32-bit range stands for that
/// number.
pub proof fn lemma_wrapped_stands_for(value: int)
    requires
        -0x8000_0000 <= value < 0x8000_0000,
    ensures
        signed_value(wrapped(value)) == value,
{
}

/// Sign extension keeps the number: the extended word stands for the number
/// that the twelve bits stand for.
pub proof fn lemma_sign_extension_keeps_value(imm: u16)
    ensures
        -0x800 <= immediate_value(imm) < 0x800,
        signed_value(sign_extended(imm)) == immediate_value(imm),
{
}

/// A left shift of the bits multiplies by the power of two and wraps around.
proof fn lemma_shift_left_multiplies(word: u32, amount: u32)
    requires
        amount < 32,
    ensures
        word << amount == wrapped(word * pow2(amount as nat)),
    decreases amount,
{
    lemma2_to64();
    if amount == 0 {
        assert(word << 0u32 == word) by (bit_vector);
        assert(word * 1 == word);
    } else {
        let before: u32 = (amount - 1) as u32;
        lemma_shift_left_multiplies(word, before);
        assert(word << amount == ((word << before) * 2) % 0x1_0000_0000) by (bit_vector)
            requires
                0 < amount < 32,
                before == amount - 1,
        ;
        lemma_pow2_unfold(amount as nat);
        let product = word * pow2(before as nat);
        lemma_mul_mod_noop_left(product, 2, 0x1_0000_0000);
        assert(product * 2 == word * pow2(amount as nat)) by (nonlinear_arith)
            requires
                product == word * pow2(before as nat),
                pow2(amount as nat) == 2 * pow2(before as nat),
        ;
    }
}

/// A right shift of the bits of a signed number divides by the power of two
/// and rounds down.
proof fn lemma_shift_right_signed_divides(word: u32, amount: u32)
    requires
        amount < 32,
    ensures
        ((word as i32) >> amount) as u32 == wrapped(
            signed_value(word) / (pow2(amount as nat) as int),
        ),
{
    let shifted: u32 = ((word as i32) >> amount) as u32;
    let divisor = pow2(amount as nat) as int;
    lemma_pow2_pos(amount as nat);
    if word < 0x8000_0000 {
        assert(shifted == word >> amount) by (bit_vector)
            requires
                amount < 32,
                word < 0x8000_0000,
                shifted == ((word as i32) >> amount) as u32,
        ;
        lemma_u32_shr_is_div(word, amount);
        lemma_div_nonincreasing(word as int, divisor);
        lemma_div_pos_is_pos(word as int, divisor);
    } else {
        let rest: u32 = !word;
        let quotient: u32 = rest >> amount;
        assert(rest == 0xffff_ffff - word && shifted == 0xffff_ffff - quotient) by (bit_vector)
            requires
                amount < 32,
                word >= 0x8000_0000,
                rest == !word,
                quotient == rest >> amount,
                shifted == ((word as i32) >> amount) as u32,
        ;
        lemma_u32_shr_is_div(rest, amount);
        lemma_fundamental_div_mod(rest as int, divisor);
        lemma_mod_bound(rest as int, divisor);
        lemma_div_nonincreasing(rest as int, divisor);
        lemma_div_pos_is_pos(rest as int, divisor);
        let remainder = rest as int % divisor;
        assert(-(rest + 1) == (-quotient - 1) * divisor + (divisor - 1 - remainder))
            by (nonlinear_arith)
            requires
                rest == divisor * quotient + remainder,
        ;
        lemma_fundamental_div_mod_converse(
            -(rest + 1),
            divisor,
            -quotient - 1,
            divisor - 1 - remainder,
        );
    }
}

/// An arithmetic shift keeps the sign: its result is negative exactly if the
/// shifted word is.
pub proof fn lemma_arithmetic_shift_keeps_sign(word: u32, amount: u32)
    ensures
        signed_value(result_of(Operation::Sra, word, amount)) < 0 <==> signed_value(word) < 0,
{
    let divisor = pow2((amount % 32) as nat) as int;
    let value = signed_value(word);
    lemma_pow2_pos((amount % 32) as nat);
    lemma_fundamental_div_mod(value, divisor);
    lemma_mod_bound(value, divisor);
    assert(-0x8000_0000 <= value / divisor < 0x8000_0000 && (value / divisor < 0 <==> value < 0))
        by (nonlinear_arith)
        requires
            -0x8000_0000 <= value < 0x8000_0000,
            divisor > 0,
            value == divisor * (value / divisor) + value % divisor,
            0 <= value % divisor < divisor,
    ;
    lemma_wrapped_stands_for(value / divisor);
}

/// Widens the 12-bit immediate to 32 bits by repeating its sign bit.
pub fn sign_extend(imm: u16) -> (word: u32)
    ensures
        word == sign_extended(imm),
{
    let low: u16 = imm & 0xfff;
    assert(low == imm % 0x1000 && low < 0x1000) by (bit_vector)
        requires
            low == imm & 0xfff,
    ;
    if low < 0x800 {
        low as u32
    } else {
        0xffff_f000u32 + low as u32
    }
}

/// Widens the 12-bit immediate to 32 bits with zeros.
pub fn zero_extend(imm: u16) -> (word: u32)
    ensures
        word == zero_extended(imm),
{
    let low: u16 = imm & 0xfff;
    assert(low == imm % 0x1000) by (bit_vector)
        requires
            low == imm & 0xfff,
    ;
    low as u32
}

/// Applies `op` to `a` and `b`.
pub fn compute(op: Operation, a: u32, b: u32) -> (value: u32)
    ensures
        value == result_of(op, a, b),
{
    match op {
        Operation::Add => a.wrapping_add(b),
        Operation::Sub => a.wrapping_sub(b),
        Operation::Xor => a ^ b,
        Operation::Or => a | b,
        Operation::And => a & b,
        Operation::Sll => {
            let amount: u32 = b % 32;
            proof {
                lemma_shift_left_multiplies(a, amount);
            }
            a << amount
        },
        Operation::Srl => {
            let amount: u32 = b % 32;
            proof {
                lemma_u32_shr_is_div(a, amount);
            }
            a >> amount
        },
        Operation::Sra => {
            let amount: u32 = b % 32;
            proof {
                lemma_shift_right_signed_divides(a, amount);
            }
            let shifted: i32 = (#[verifier::truncate] (a as i32)) >> amount;
            #[verifier::truncate]
            (shifted as u32)
        },
        Operation::Slt => {
            let left: i32 = #[verifier::truncate]
            (a as i32);
            let right: i32 = #[verifier::truncate]
            (b as i32);
            assert(left < right <==> signed_value(a) < signed_value(b)) by (bit_vector)
                requires
                    left == a as i32,
                    right == b as i32,
            ;
            if left < right {
                1
            } else {
                0
            }
        },
        Operation::Sltu => if a < b {
            1
        } else {
            0
        },
    }
}

/// Looks up the immediate-arithmetic group.
pub fn select_immediate(funct3: u8, imm: u16) -> (selected: Option<(Operation, u32)>)
    ensures
        selected == immediate_selection(funct3, imm),
{
    let amount: u32 = (imm % 32) as u32;
    let funct7: u16 = imm / 32;
    match funct3 {
        0x0 => Some((Operation::Add, sign_extend(imm))),
        0x4 => Some((Operation::Xor, zero_extend(imm))),
        0x6 => Some((Operation::Or, zero_extend(imm))),
        0x7 => Some((Operation::And, zero_extend(imm))),
        0x1 => match funct7 {
            0x00 => Some((Operation::Sll, amount)),
            _ => None,
        },
        0x5 => match funct7 {
            0x00 => Some((Operation::Srl, amount)),
            0x20 => Some((Operation::Sra, amount)),
            _ => None,
        },
        0x2 => Some((Operation::Slt, sign_extend(imm))),
        0x3 => Some((Operation::Sltu, zero_extend(imm))),
        _ => None,
    }
}

/// Looks up the register-register group.
pub fn select_register(funct3: u8, funct7: u8) -> (selected: Option<Operation>)
    ensures
        selected == register_selection(funct3, funct7),
{
    match funct7 {
        0x00 => match funct3 {
            0x0 => Some(Operation::Add),
            0x1 => Some(Operation::Sll),
            0x2 => Some(Operation::Slt),
            0x3 => Some(Operation::Sltu),
            0x4 => Some(Operation::Xor),
            0x5 => Some(Operation::Srl),
            0x6 => Some(Operation::Or),
            0x7 => Some(Operation::And),
            _ => None,
        },
        0x20 => match funct3 {
            0x0 => Some(Operation::Sub),
            0x5 => Some(Operation::Sra),
            _ => None,
        },
        _ => None,
    }
}

} // verus!

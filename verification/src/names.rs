//! The names of the 32 registers: the architectural name of each, and the
//! name that the calling convention gives it.

use vstd::prelude::*;
use vstd::string::StringSliceAdditionalSpecFns;
use vstd::utf8::encode_utf8_decode_utf8;

verus! {

/// The architectural name of register `index`: `x0` to `x31`.
pub open spec fn register_name(index: int) -> Seq<char> {
    if index == 0 {
        "x0"@
    } else if index == 1 {
        "x1"@
    } else if index == 2 {
        "x2"@
    } else if index == 3 {
        "x3"@
    } else if index == 4 {
        "x4"@
    } else if index == 5 {
        "x5"@
    } else if index == 6 {
        "x6"@
    } else if index == 7 {
        "x7"@
    } else if index == 8 {
        "x8"@
    } else if index == 9 {
        "x9"@
    } else if index == 10 {
        "x10"@
    } else if index == 11 {
        "x11"@
    } else if index == 12 {
        "x12"@
    } else if index == 13 {
        "x13"@
    } else if index == 14 {
        "x14"@
    } else if index == 15 {
        "x15"@
    } else if index == 16 {
        "x16"@
    } else if index == 17 {
        "x17"@
    } else if index == 18 {
        "x18"@
    } else if index == 19 {
        "x19"@
    } else if index == 20 {
        "x20"@
    } else if index == 21 {
        "x21"@
    } else if index == 22 {
        "x22"@
    } else if index == 23 {
        "x23"@
    } else if index == 24 {
        "x24"@
    } else if index == 25 {
        "x25"@
    } else if index == 26 {
        "x26"@
    } else if index == 27 {
        "x27"@
    } else if index == 28 {
        "x28"@
    } else if index == 29 {
        "x29"@
    } else if index == 30 {
        "x30"@
    } else {
        "x31"@
    }
}

/// The name that the calling convention gives register `index`.
pub open spec fn abi_name(index: int) -> Seq<char> {
    if index == 0 {
        "zero"@
    } else if index == 1 {
        "ra"@
    } else if index == 2 {
        "sp"@
    } else if index == 3 {
        "gp"@
    } else if index == 4 {
        "tp"@
    } else if index == 5 {
        "t0"@
    } else if index == 6 {
        "t1"@
    } else if index == 7 {
        "t2"@
    } else if index == 8 {
        "s0"@
    } else if index == 9 {
        "s1"@
    } else if index == 10 {
        "a0"@
    } else if index == 11 {
        "a1"@
    } else if index == 12 {
        "a2"@
    } else if index == 13 {
        "a3"@
    } else if index == 14 {
        "a4"@
    } else if index == 15 {
        "a5"@
    } else if index == 16 {
        "a6"@
    } else if index == 17 {
        "a7"@
    } else if index == 18 {
        "s2"@
    } else if index == 19 {
        "s3"@
    } else if index == 20 {
        "s4"@
    } else if index == 21 {
        "s5"@
    } else if index == 22 {
        "s6"@
    } else if index == 23 {
        "s7"@
    } else if index == 24 {
        "s8"@
    } else if index == 25 {
        "s9"@
    } else if index == 26 {
        "s10"@
    } else if index == 27 {
        "s11"@
    } else if index == 28 {
        "t3"@
    } else if index == 29 {
        "t4"@
    } else if index == 30 {
        "t5"@
    } else {
        "t6"@
    }
}

/// The index of the register that the calling convention names `name`, or
/// `None` where it gives no register that name.
pub open spec fn abi_index(name: Seq<char>) -> Option<int> {
    if name == "zero"@ {
        Some(0int)
    } else if name == "ra"@ {
        Some(1int)
    } else if name == "sp"@ {
        Some(2int)
    } else if name == "gp"@ {
        Some(3int)
    } else if name == "tp"@ {
        Some(4int)
    } else if name == "t0"@ {
        Some(5int)
    } else if name == "t1"@ {
        Some(6int)
    } else if name == "t2"@ {
        Some(7int)
    } else if name == "s0"@ {
        Some(8int)
    } else if name == "s1"@ {
        Some(9int)
    } else if name == "a0"@ {
        Some(10int)
    } else if name == "a1"@ {
        Some(11int)
    } else if name == "a2"@ {
        Some(12int)
    } else if name == "a3"@ {
        Some(13int)
    } else if name == "a4"@ {
        Some(14int)
    } else if name == "a5"@ {
        Some(15int)
    } else if name == "a6"@ {
        Some(16int)
    } else if name == "a7"@ {
        Some(17int)
    } else if name == "s2"@ {
        Some(18int)
    } else if name == "s3"@ {
        Some(19int)
    } else if name == "s4"@ {
        Some(20int)
    } else if name == "s5"@ {
        Some(21int)
    } else if name == "s6"@ {
        Some(22int)
    } else if name == "s7"@ {
        Some(23int)
    } else if name == "s8"@ {
        Some(24int)
    } else if name == "s9"@ {
        Some(25int)
    } else if name == "s10"@ {
        Some(26int)
    } else if name == "s11"@ {
        Some(27int)
    } else if name == "t3"@ {
        Some(28int)
    } else if name == "t4"@ {
        Some(29int)
    } else if name == "t5"@ {
        Some(30int)
    } else if name == "t6"@ {
        Some(31int)
    } else {
        None
    }
}

/// Looking up the name of a register leads back to that register, so no two
/// registers share a name of the calling convention.
pub proof fn lemma_abi_index_of_abi_name(index: int)
    requires
        0 <= index < 32,
    ensures
        abi_index(abi_name(index)) == Some(index),
{
    reveal_strlit("zero");
    assert("zero"@.len() == 4 && "zero"@[0] == 'z' && "zero"@[1] == 'e' && "zero"@[2] == 'r' && "zero"@[3] == 'o');
    reveal_strlit("ra");
    assert("ra"@.len() == 2 && "ra"@[0] == 'r' && "ra"@[1] == 'a');
    reveal_strlit("sp");
    assert("sp"@.len() == 2 && "sp"@[0] == 's' && "sp"@[1] == 'p');
    reveal_strlit("gp");
    assert("gp"@.len() == 2 && "gp"@[0] == 'g' && "gp"@[1] == 'p');
    reveal_strlit("tp");
    assert("tp"@.len() == 2 && "tp"@[0] == 't' && "tp"@[1] == 'p');
    reveal_strlit("t0");
    assert("t0"@.len() == 2 && "t0"@[0] == 't' && "t0"@[1] == '0');
    reveal_strlit("t1");
    assert("t1"@.len() == 2 && "t1"@[0] == 't' && "t1"@[1] == '1');
    reveal_strlit("t2");
    assert("t2"@.len() == 2 && "t2"@[0] == 't' && "t2"@[1] == '2');
    reveal_strlit("s0");
    assert("s0"@.len() == 2 && "s0"@[0] == 's' && "s0"@[1] == '0');
    reveal_strlit("s1");
    assert("s1"@.len() == 2 && "s1"@[0] == 's' && "s1"@[1] == '1');
    reveal_strlit("a0");
    assert("a0"@.len() == 2 && "a0"@[0] == 'a' && "a0"@[1] == '0');
    reveal_strlit("a1");
    assert("a1"@.len() == 2 && "a1"@[0] == 'a' && "a1"@[1] == '1');
    reveal_strlit("a2");
    assert("a2"@.len() == 2 && "a2"@[0] == 'a' && "a2"@[1] == '2');
    reveal_strlit("a3");
    assert("a3"@.len() == 2 && "a3"@[0] == 'a' && "a3"@[1] == '3');
    reveal_strlit("a4");
    assert("a4"@.len() == 2 && "a4"@[0] == 'a' && "a4"@[1] == '4');
    reveal_strlit("a5");
    assert("a5"@.len() == 2 && "a5"@[0] == 'a' && "a5"@[1] == '5');
    reveal_strlit("a6");
    assert("a6"@.len() == 2 && "a6"@[0] == 'a' && "a6"@[1] == '6');
    reveal_strlit("a7");
    assert("a7"@.len() == 2 && "a7"@[0] == 'a' && "a7"@[1] == '7');
    reveal_strlit("s2");
    assert("s2"@.len() == 2 && "s2"@[0] == 's' && "s2"@[1] == '2');
    reveal_strlit("s3");
    assert("s3"@.len() == 2 && "s3"@[0] == 's' && "s3"@[1] == '3');
    reveal_strlit("s4");
    assert("s4"@.len() == 2 && "s4"@[0] == 's' && "s4"@[1] == '4');
    reveal_strlit("s5");
    assert("s5"@.len() == 2 && "s5"@[0] == 's' && "s5"@[1] == '5');
    reveal_strlit("s6");
    assert("s6"@.len() == 2 && "s6"@[0] == 's' && "s6"@[1] == '6');
    reveal_strlit("s7");
    assert("s7"@.len() == 2 && "s7"@[0] == 's' && "s7"@[1] == '7');
    reveal_strlit("s8");
    assert("s8"@.len() == 2 && "s8"@[0] == 's' && "s8"@[1] == '8');
    reveal_strlit("s9");
    assert("s9"@.len() == 2 && "s9"@[0] == 's' && "s9"@[1] == '9');
    reveal_strlit("s10");
    assert("s10"@.len() == 3 && "s10"@[0] == 's' && "s10"@[1] == '1' && "s10"@[2] == '0');
    reveal_strlit("s11");
    assert("s11"@.len() == 3 && "s11"@[0] == 's' && "s11"@[1] == '1' && "s11"@[2] == '1');
    reveal_strlit("t3");
    assert("t3"@.len() == 2 && "t3"@[0] == 't' && "t3"@[1] == '3');
    reveal_strlit("t4");
    assert("t4"@.len() == 2 && "t4"@[0] == 't' && "t4"@[1] == '4');
    reveal_strlit("t5");
    assert("t5"@.len() == 2 && "t5"@[0] == 't' && "t5"@[1] == '5');
    reveal_strlit("t6");
    assert("t6"@.len() == 2 && "t6"@[0] == 't' && "t6"@[1] == '6');
}

/// A name that the calling convention knows is the name of the register
/// that the lookup gives.
pub proof fn lemma_abi_name_of_abi_index(name: Seq<char>)
    requires
        abi_index(name) is Some,
    ensures
        0 <= abi_index(name).unwrap() < 32,
        abi_name(abi_index(name).unwrap()) == name,
{
}

/// Whether `a` and `b` hold the same text.
pub fn same_text(a: &str, b: &str) -> (same: bool)
    ensures
        same == (a@ == b@),
{
    let left = a.as_bytes();
    let right = b.as_bytes();
    proof {
        encode_utf8_decode_utf8(a@);
        encode_utf8_decode_utf8(b@);
    }
    if left.len() != right.len() {
        return false;
    }
    let mut i: usize = 0;
    while i < left.len()
        invariant
            i <= left.len(),
            left.len() == right.len(),
            forall|k: int| 0 <= k < i ==> left@[k] == right@[k],
            left@ == a.spec_bytes(),
            right@ == b.spec_bytes(),
        decreases left.len() - i,
    {
        if left[i] != right[i] {
            return false;
        }
        i += 1;
    }
    assert(left@ =~= right@);
    true
}

} // verus!

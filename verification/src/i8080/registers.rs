use vstd::prelude::*;

verus! {

/// Three-bit register selectors, as they appear in opcode bit fields.
pub const B_REG: u8 = 0;

pub const C_REG: u8 = 1;

pub const D_REG: u8 = 2;

pub const E_REG: u8 = 3;

pub const H_REG: u8 = 4;

pub const L_REG: u8 = 5;

/// Selector 6 denotes the memory byte addressed by the HL pair.
pub const MEM_REF: u8 = 6;

pub const A_REG: u8 = 7;

/// Two-bit register-pair selectors.
pub const BC_PAIR_REG: u8 = 0;

pub const DE_PAIR_REG: u8 = 1;

pub const HL_PAIR_REG: u8 = 2;

/// Pair selector 3 denotes the stack pointer, except in PUSH and POP where
/// it denotes the program status word (flags byte and accumulator).
pub const SP_REG: u8 = 3;

/// The accumulator and the six general registers.
#[derive(Clone, Copy, Debug, PartialEq, Eq, Structural)]
pub struct Registers {
    pub accumulator: u8,
    pub b: u8,
    pub c: u8,
    pub d: u8,
    pub e: u8,
    pub h: u8,
    pub l: u8,
}

/// Display name of a register selector.
pub open spec fn spec_reg_name(reg: u8) -> Seq<char> {
    let code = (reg as int) % 8;
    if code == 0 {
        "B"@
    } else if code == 1 {
        "C"@
    } else if code == 2 {
        "D"@
    } else if code == 3 {
        "E"@
    } else if code == 4 {
        "H"@
    } else if code == 5 {
        "L"@
    } else if code == 6 {
        "MEM"@
    } else {
        "A"@
    }
}

impl Registers {
    /// All registers cleared, the state after construction and reset.
    pub fn new() -> (r: Registers)
        ensures
            r == (Registers { accumulator: 0, b: 0, c: 0, d: 0, e: 0, h: 0, l: 0 }),
    {
        Registers { accumulator: 0, b: 0, c: 0, d: 0, e: 0, h: 0, l: 0 }
    }

    /// Display name of a register selector; only its low three bits matter.
    pub fn translate_to_reg(reg: u8) -> (r: String)
        ensures
            r@ == spec_reg_name(reg),
    {
        let code = reg % 8;
        if code == 0 {
            String::from_str("B")
        } else if code == 1 {
            String::from_str("C")
        } else if code == 2 {
            String::from_str("D")
        } else if code == 3 {
            String::from_str("E")
        } else if code == 4 {
            String::from_str("H")
        } else if code == 5 {
            String::from_str("L")
        } else if code == 6 {
            String::from_str("MEM")
        } else {
            String::from_str("A")
        }
    }
}

} // verus!

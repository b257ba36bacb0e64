use vstd::prelude::*;

verus! {

/// The five independent 8080 status flags.
///
/// Parity follows the common 8080 convention: the flag is true when the
/// result byte has an even population count.
#[derive(Clone, Copy, Debug, PartialEq, Eq, Structural)]
pub struct StatusFlags {
    pub carry_flag: bool,
    pub auxiliary_flag: bool,
    pub sign_flag: bool,
    pub zero_flag: bool,
    pub parity_flag: bool,
}

/// Number of one bits in a byte, written as the sum of its eight bits.
pub open spec fn spec_popcount(b: u8) -> int {
    (b as int) % 2 + ((b as int) / 2) % 2 + ((b as int) / 4) % 2 + ((b as int) / 8) % 2
        + ((b as int) / 16) % 2 + ((b as int) / 32) % 2 + ((b as int) / 64) % 2
        + ((b as int) / 128) % 2
}

/// Parity flag: true when the byte has an even number of one bits.
pub open spec fn spec_parity(b: u8) -> bool {
    spec_popcount(b) % 2 == 0
}

/// Sign flag: true when bit 7 of the byte is set.
pub open spec fn spec_sign(b: u8) -> bool {
    b >= 0x80
}

/// Zero flag: true when the byte is zero.
pub open spec fn spec_zero(b: u8) -> bool {
    b == 0
}

/// Program-status-word encoding of the flags byte: carry in bit 0, parity in
/// bit 2, auxiliary carry in bit 4, zero in bit 6, sign in bit 7; bit 1 is
/// always one and bits 3 and 5 are always zero.
pub open spec fn spec_flags_to_byte(f: StatusFlags) -> u8 {
    ((if f.carry_flag { 1int } else { 0int }) + 2 + (if f.parity_flag { 4int } else { 0int })
        + (if f.auxiliary_flag { 16int } else { 0int }) + (if f.zero_flag { 64int } else { 0int })
        + (if f.sign_flag { 128int } else { 0int })) as u8
}

/// Flags recovered from a program-status-word byte; the reserved bits are
/// ignored.
pub open spec fn spec_flags_from_byte(b: u8) -> StatusFlags {
    StatusFlags {
        carry_flag: (b as int) % 2 == 1,
        parity_flag: ((b as int) / 4) % 2 == 1,
        auxiliary_flag: ((b as int) / 16) % 2 == 1,
        zero_flag: ((b as int) / 64) % 2 == 1,
        sign_flag: ((b as int) / 128) % 2 == 1,
    }
}

impl StatusFlags {
    /// All flags cleared, the state after construction and reset.
    pub fn new() -> (f: StatusFlags)
        ensures
            f == (StatusFlags {
                carry_flag: false,
                auxiliary_flag: false,
                sign_flag: false,
                zero_flag: false,
                parity_flag: false,
            }),
    {
        StatusFlags {
            carry_flag: false,
            auxiliary_flag: false,
            sign_flag: false,
            zero_flag: false,
            parity_flag: false,
        }
    }

    /// Pack the flags into the program-status-word byte.
    pub fn get_flags_u8(&self) -> (r: u8)
        ensures
            r == spec_flags_to_byte(*self),
    {
        let carry: u8 = if self.carry_flag { 1 } else { 0 };
        let parity: u8 = if self.parity_flag { 4 } else { 0 };
        let auxiliary: u8 = if self.auxiliary_flag { 16 } else { 0 };
        let zero: u8 = if self.zero_flag { 64 } else { 0 };
        let sign: u8 = if self.sign_flag { 128 } else { 0 };
        carry + 2 + parity + auxiliary + zero + sign
    }

    /// Unpack a program-status-word byte into the five flags.
    pub fn set_flags_u8(&mut self, flags: u8)
        ensures
            *final(self) == spec_flags_from_byte(flags),
    {
        self.carry_flag = flags % 2 == 1;
        self.parity_flag = (flags / 4) % 2 == 1;
        self.auxiliary_flag = (flags / 16) % 2 == 1;
        self.zero_flag = (flags / 64) % 2 == 1;
        self.sign_flag = (flags / 128) % 2 == 1;
    }
}

/// The power-on value of the auxiliary-carry flag; the flag itself is
/// computed per instruction from the operands, not from the result byte.
pub fn auxiliary() -> (r: bool)
    ensures
        r == false,
{
    false
}

/// True when bit 7 of the byte is set.
pub fn sign(b: u8) -> (r: bool)
    ensures
        r == spec_sign(b),
{
    b >= 0x80
}

/// True when the byte is zero.
pub fn zero(b: u8) -> (r: bool)
    ensures
        r == spec_zero(b),
{
    b == 0
}

/// True when the byte has an even number of one bits.
pub fn parity(b: u8) -> (r: bool)
    ensures
        r == spec_parity(b),
{
    let count: u8 = b % 2 + (b / 2) % 2 + (b / 4) % 2 + (b / 8) % 2 + (b / 16) % 2 + (b / 32) % 2
        + (b / 64) % 2 + (b / 128) % 2;
    count % 2 == 0
}

} // verus!

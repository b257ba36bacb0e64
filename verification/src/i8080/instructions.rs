use vstd::prelude::*;

verus! {

/// How an instruction locates its operand, which also fixes its length:
/// one byte for register, pair and stack forms, two bytes for a one-byte
/// immediate, three bytes for a two-byte immediate or address.
#[derive(Clone, Copy, Debug, PartialEq, Eq, Structural)]
pub enum AddressMode {
    Direct,
    Pair,
    StackPointer,
    ImmediateOneByte,
    ImmediateTwoBytes,
    Unknown,
}

/// One variant per architectural mnemonic, plus an explicit variant for
/// opcode bytes this simulator does not recognize.
#[derive(Clone, Copy, Debug, PartialEq, Eq, Structural)]
pub enum InstructionTypes {
    MOV,
    ADD,
    ADC,
    SUB,
    SBB,
    ANA,
    XRA,
    ORA,
    CMP,
    MVI,
    ADI,
    ACI,
    SUI,
    SBI,
    ANI,
    ORI,
    XRI,
    CPI,
    JMP,
    JNZ,
    JZ,
    JNC,
    JC,
    JPO,
    JPE,
    JP,
    JM,
    LXI,
    DCR,
    DAD,
    RRC,
    RLC,
    RAL,
    RAR,
    INX,
    DCX,
    LDA,
    LDAX,
    STA,
    PUSH,
    POP,
    CALL,
    NOP,
    RET,
    XCHG,
    OUT,
    EI,
    DI,
    INR,
    CP,
    CNZ,
    CC,
    CNC,
    CPO,
    CPE,
    CM,
    CZ,
    RC,
    RNC,
    RZ,
    RNZ,
    RM,
    RP,
    RPE,
    RPO,
    LHLD,
    SHLD,
    STAX,
    STC,
    CMC,
    CMA,
    DAA,
    SPHL,
    XTHL,
    PCHL,
    RST,
    Unknown,
}

/// A decoded instruction: the raw opcode byte, the two bytes that follow it
/// in the instruction stream (meaningful only when the addressing mode
/// consumes them), the classification, and the operand selectors extracted
/// from the opcode's bit fields.
#[derive(Clone, Copy, Debug, PartialEq, Eq, Structural)]
pub struct Instruction {
    pub machine_code: u8,
    pub immediate_lsb: u8,
    pub immediate_msb: u8,
    pub address_mode: AddressMode,
    pub instruction_type: InstructionTypes,
    pub low_nibble: Option<u8>,
    pub high_nibble: Option<u8>,
}

/// Instruction kind for an opcode whose two high bits are 00: no-ops,
/// register-pair loads and steps, single-register steps, rotates, direct
/// loads and stores, and the carry and accumulator complements.
pub open spec fn spec_kind_misc(b: u8) -> InstructionTypes {
    if b == 0x00 {
        InstructionTypes::NOP
    } else if b == 0x02 || b == 0x12 {
        InstructionTypes::STAX
    } else if b == 0x0A || b == 0x1A {
        InstructionTypes::LDAX
    } else if b == 0x07 {
        InstructionTypes::RLC
    } else if b == 0x0F {
        InstructionTypes::RRC
    } else if b == 0x17 {
        InstructionTypes::RAL
    } else if b == 0x1F {
        InstructionTypes::RAR
    } else if b == 0x22 {
        InstructionTypes::SHLD
    } else if b == 0x2A {
        InstructionTypes::LHLD
    } else if b == 0x27 {
        InstructionTypes::DAA
    } else if b == 0x2F {
        InstructionTypes::CMA
    } else if b == 0x32 {
        InstructionTypes::STA
    } else if b == 0x3A {
        InstructionTypes::LDA
    } else if b == 0x37 {
        InstructionTypes::STC
    } else if b == 0x3F {
        InstructionTypes::CMC
    } else if b % 16 == 1 {
        InstructionTypes::LXI
    } else if b % 16 == 3 {
        InstructionTypes::INX
    } else if b % 16 == 9 {
        InstructionTypes::DAD
    } else if b % 16 == 11 {
        InstructionTypes::DCX
    } else if b % 8 == 4 {
        InstructionTypes::INR
    } else if b % 8 == 5 {
        InstructionTypes::DCR
    } else if b % 8 == 6 {
        InstructionTypes::MVI
    } else {
        InstructionTypes::Unknown
    }
}

/// Instruction kind for an opcode whose two high bits are 10: the eight
/// arithmetic and logical operations, selected by bits 5 to 3.
pub open spec fn spec_kind_arith(b: u8) -> InstructionTypes {
    let op = ((b as int) / 8) % 8;
    if op == 0 {
        InstructionTypes::ADD
    } else if op == 1 {
        InstructionTypes::ADC
    } else if op == 2 {
        InstructionTypes::SUB
    } else if op == 3 {
        InstructionTypes::SBB
    } else if op == 4 {
        InstructionTypes::ANA
    } else if op == 5 {
        InstructionTypes::XRA
    } else if op == 6 {
        InstructionTypes::ORA
    } else {
        InstructionTypes::CMP
    }
}

/// Instruction kind for an opcode whose two high bits are 11: branches,
/// stack operations, immediates and miscellany, decoded byte by byte since
/// this group's encoding is irregular.
pub open spec fn spec_kind_branch(b: u8) -> InstructionTypes {
    if b == 0xC3 {
        InstructionTypes::JMP
    } else if b == 0xC2 {
        InstructionTypes::JNZ
    } else if b == 0xCA {
        InstructionTypes::JZ
    } else if b == 0xD2 {
        InstructionTypes::JNC
    } else if b == 0xDA {
        InstructionTypes::JC
    } else if b == 0xE2 {
        InstructionTypes::JPO
    } else if b == 0xEA {
        InstructionTypes::JPE
    } else if b == 0xF2 {
        InstructionTypes::JP
    } else if b == 0xFA {
        InstructionTypes::JM
    } else if b == 0xCD {
        InstructionTypes::CALL
    } else if b == 0xC4 {
        InstructionTypes::CNZ
    } else if b == 0xCC {
        InstructionTypes::CZ
    } else if b == 0xD4 {
        InstructionTypes::CNC
    } else if b == 0xDC {
        InstructionTypes::CC
    } else if b == 0xE4 {
        InstructionTypes::CPO
    } else if b == 0xEC {
        InstructionTypes::CPE
    } else if b == 0xF4 {
        InstructionTypes::CP
    } else if b == 0xFC {
        InstructionTypes::CM
    } else if b == 0xC9 {
        InstructionTypes::RET
    } else if b == 0xC0 {
        InstructionTypes::RNZ
    } else if b == 0xC8 {
        InstructionTypes::RZ
    } else if b == 0xD0 {
        InstructionTypes::RNC
    } else if b == 0xD8 {
        InstructionTypes::RC
    } else if b == 0xE0 {
        InstructionTypes::RPO
    } else if b == 0xE8 {
        InstructionTypes::RPE
    } else if b == 0xF0 {
        InstructionTypes::RP
    } else if b == 0xF8 {
        InstructionTypes::RM
    } else if b % 16 == 1 {
        InstructionTypes::POP
    } else if b % 16 == 5 {
        InstructionTypes::PUSH
    } else if b % 8 == 7 {
        InstructionTypes::RST
    } else if b == 0xC6 {
        InstructionTypes::ADI
    } else if b == 0xCE {
        InstructionTypes::ACI
    } else if b == 0xD6 {
        InstructionTypes::SUI
    } else if b == 0xDE {
        InstructionTypes::SBI
    } else if b == 0xE6 {
        InstructionTypes::ANI
    } else if b == 0xEE {
        InstructionTypes::XRI
    } else if b == 0xF6 {
        InstructionTypes::ORI
    } else if b == 0xFE {
        InstructionTypes::CPI
    } else if b == 0xD3 {
        InstructionTypes::OUT
    } else if b == 0xE3 {
        InstructionTypes::XTHL
    } else if b == 0xE9 {
        InstructionTypes::PCHL
    } else if b == 0xEB {
        InstructionTypes::XCHG
    } else if b == 0xF3 {
        InstructionTypes::DI
    } else if b == 0xF9 {
        InstructionTypes::SPHL
    } else if b == 0xFB {
        InstructionTypes::EI
    } else {
        InstructionTypes::Unknown
    }
}

/// The instruction kind of each opcode byte, dispatched on the two high
/// bits: 00 miscellany, 01 register move, 10 arithmetic and logic, 11
/// branches and stack.
pub open spec fn spec_kind(b: u8) -> InstructionTypes {
    if b < 0x40 {
        spec_kind_misc(b)
    } else if b < 0x80 {
        InstructionTypes::MOV
    } else if b < 0xC0 {
        spec_kind_arith(b)
    } else {
        spec_kind_branch(b)
    }
}

/// The addressing mode of each opcode byte, given its decoded kind.
pub open spec fn spec_mode_of_kind(k: InstructionTypes, b: u8) -> AddressMode {
    match k {
        InstructionTypes::MOV => AddressMode::Direct,
        InstructionTypes::ADD => AddressMode::Direct,
        InstructionTypes::ADC => AddressMode::Direct,
        InstructionTypes::SUB => AddressMode::Direct,
        InstructionTypes::SBB => AddressMode::Direct,
        InstructionTypes::ANA => AddressMode::Direct,
        InstructionTypes::XRA => AddressMode::Direct,
        InstructionTypes::ORA => AddressMode::Direct,
        InstructionTypes::CMP => AddressMode::Direct,
        InstructionTypes::MVI => AddressMode::ImmediateOneByte,
        InstructionTypes::ADI => AddressMode::ImmediateOneByte,
        InstructionTypes::ACI => AddressMode::ImmediateOneByte,
        InstructionTypes::SUI => AddressMode::ImmediateOneByte,
        InstructionTypes::SBI => AddressMode::ImmediateOneByte,
        InstructionTypes::ANI => AddressMode::ImmediateOneByte,
        InstructionTypes::ORI => AddressMode::ImmediateOneByte,
        InstructionTypes::XRI => AddressMode::ImmediateOneByte,
        InstructionTypes::CPI => AddressMode::ImmediateOneByte,
        InstructionTypes::JMP => AddressMode::ImmediateTwoBytes,
        InstructionTypes::JNZ => AddressMode::ImmediateTwoBytes,
        InstructionTypes::JZ => AddressMode::ImmediateTwoBytes,
        InstructionTypes::JNC => AddressMode::ImmediateTwoBytes,
        InstructionTypes::JC => AddressMode::ImmediateTwoBytes,
        InstructionTypes::JPO => AddressMode::ImmediateTwoBytes,
        InstructionTypes::JPE => AddressMode::ImmediateTwoBytes,
        InstructionTypes::JP => AddressMode::ImmediateTwoBytes,
        InstructionTypes::JM => AddressMode::ImmediateTwoBytes,
        InstructionTypes::LXI => AddressMode::ImmediateTwoBytes,
        InstructionTypes::DCR => AddressMode::Direct,
        InstructionTypes::DAD => AddressMode::Direct,
        InstructionTypes::RRC => AddressMode::Direct,
        InstructionTypes::RLC => AddressMode::Direct,
        InstructionTypes::RAL => AddressMode::Direct,
        InstructionTypes::RAR => AddressMode::Direct,
        InstructionTypes::INX => AddressMode::Pair,
        InstructionTypes::DCX => AddressMode::Direct,
        InstructionTypes::LDA => AddressMode::ImmediateTwoBytes,
        InstructionTypes::LDAX => AddressMode::Pair,
        InstructionTypes::STA => AddressMode::ImmediateTwoBytes,
        InstructionTypes::PUSH => AddressMode::StackPointer,
        InstructionTypes::POP => AddressMode::StackPointer,
        InstructionTypes::CALL => AddressMode::ImmediateTwoBytes,
        InstructionTypes::NOP => AddressMode::Unknown,
        InstructionTypes::RET => AddressMode::Direct,
        InstructionTypes::XCHG => AddressMode::Pair,
        InstructionTypes::OUT => AddressMode::Unknown,
        InstructionTypes::EI => AddressMode::Unknown,
        InstructionTypes::DI => AddressMode::Unknown,
        InstructionTypes::INR => AddressMode::Direct,
        InstructionTypes::CP => AddressMode::ImmediateTwoBytes,
        InstructionTypes::CNZ => AddressMode::ImmediateTwoBytes,
        InstructionTypes::CC => AddressMode::ImmediateTwoBytes,
        InstructionTypes::CNC => AddressMode::ImmediateTwoBytes,
        InstructionTypes::CPO => AddressMode::ImmediateTwoBytes,
        InstructionTypes::CPE => AddressMode::ImmediateTwoBytes,
        InstructionTypes::CM => AddressMode::ImmediateTwoBytes,
        InstructionTypes::CZ => AddressMode::ImmediateTwoBytes,
        InstructionTypes::RC => AddressMode::Direct,
        InstructionTypes::RNC => AddressMode::Direct,
        InstructionTypes::RZ => AddressMode::Direct,
        InstructionTypes::RNZ => AddressMode::Direct,
        InstructionTypes::RM => AddressMode::Direct,
        InstructionTypes::RP => AddressMode::Direct,
        InstructionTypes::RPE => AddressMode::Direct,
        InstructionTypes::RPO => AddressMode::StackPointer,
        InstructionTypes::LHLD => AddressMode::ImmediateTwoBytes,
        InstructionTypes::SHLD => AddressMode::ImmediateTwoBytes,
        InstructionTypes::STAX => AddressMode::Pair,
        InstructionTypes::STC => AddressMode::Unknown,
        InstructionTypes::CMC => AddressMode::Unknown,
        InstructionTypes::CMA => AddressMode::Unknown,
        InstructionTypes::DAA => AddressMode::Unknown,
        InstructionTypes::SPHL => AddressMode::Pair,
        InstructionTypes::XTHL => AddressMode::Pair,
        InstructionTypes::PCHL => AddressMode::Pair,
        InstructionTypes::RST => AddressMode::Direct,
        InstructionTypes::Unknown => AddressMode::Unknown,
    }
}

/// The addressing mode of each opcode byte.
pub open spec fn spec_mode(b: u8) -> AddressMode {
    spec_mode_of_kind(spec_kind(b), b)
}

/// The first operand selector of each opcode byte: the destination register
/// for MOV, the source register for the arithmetic group, the target
/// register for MVI, INR and DCR, and the register-pair code for LXI, INX,
/// DCX, DAD, PUSH and POP.
pub open spec fn spec_low_nibble(b: u8) -> Option<u8> {
    match spec_kind(b) {
        InstructionTypes::MOV => Some((((b as int) / 8) % 8) as u8),
        InstructionTypes::ADD => Some(((b as int) % 8) as u8),
        InstructionTypes::ADC => Some(((b as int) % 8) as u8),
        InstructionTypes::SUB => Some(((b as int) % 8) as u8),
        InstructionTypes::SBB => Some(((b as int) % 8) as u8),
        InstructionTypes::ANA => Some(((b as int) % 8) as u8),
        InstructionTypes::XRA => Some(((b as int) % 8) as u8),
        InstructionTypes::ORA => Some(((b as int) % 8) as u8),
        InstructionTypes::CMP => Some(((b as int) % 8) as u8),
        InstructionTypes::MVI => Some((((b as int) / 8) % 8) as u8),
        InstructionTypes::INR => Some((((b as int) / 8) % 8) as u8),
        InstructionTypes::DCR => Some((((b as int) / 8) % 8) as u8),
        InstructionTypes::LXI => Some((((b as int) / 16) % 4) as u8),
        InstructionTypes::INX => Some((((b as int) / 16) % 4) as u8),
        InstructionTypes::DCX => Some((((b as int) / 16) % 4) as u8),
        InstructionTypes::DAD => Some((((b as int) / 16) % 4) as u8),
        InstructionTypes::PUSH => Some((((b as int) / 16) % 4) as u8),
        InstructionTypes::POP => Some((((b as int) / 16) % 4) as u8),
        _ => None,
    }
}

/// The second operand selector: only MOV uses it, for its source register.
pub open spec fn spec_high_nibble(b: u8) -> Option<u8> {
    match spec_kind(b) {
        InstructionTypes::MOV => Some(((b as int) % 8) as u8),
        _ => None,
    }
}

/// Length in bytes of an instruction with the given addressing mode.
pub open spec fn spec_len_of_mode(m: AddressMode) -> int {
    match m {
        AddressMode::Direct => 1,
        AddressMode::Pair => 1,
        AddressMode::StackPointer => 1,
        AddressMode::ImmediateOneByte => 2,
        AddressMode::ImmediateTwoBytes => 3,
        AddressMode::Unknown => 1,
    }
}

/// The full decoding of an opcode byte together with the two bytes that
/// follow it in the instruction stream. Decoding is a pure function: the
/// same bytes always decode identically.
pub open spec fn spec_decode(b: u8, lsb: u8, msb: u8) -> Instruction {
    Instruction {
        machine_code: b,
        immediate_lsb: lsb,
        immediate_msb: msb,
        address_mode: spec_mode(b),
        instruction_type: spec_kind(b),
        low_nibble: spec_low_nibble(b),
        high_nibble: spec_high_nibble(b),
    }
}

/// Mnemonic of an instruction kind, for disassembly display.
pub open spec fn spec_mnemonic(k: InstructionTypes) -> Seq<char> {
    match k {
        InstructionTypes::MOV => "MOV"@,
        InstructionTypes::ADD => "ADD"@,
        InstructionTypes::ADC => "ADC"@,
        InstructionTypes::SUB => "SUB"@,
        InstructionTypes::SBB => "SBB"@,
        InstructionTypes::ANA => "ANA"@,
        InstructionTypes::XRA => "XRA"@,
        InstructionTypes::ORA => "ORA"@,
        InstructionTypes::CMP => "CMP"@,
        InstructionTypes::MVI => "MVI"@,
        InstructionTypes::ADI => "ADI"@,
        InstructionTypes::ACI => "ACI"@,
        InstructionTypes::SUI => "SUI"@,
        InstructionTypes::SBI => "SBI"@,
        InstructionTypes::ANI => "ANI"@,
        InstructionTypes::ORI => "ORI"@,
        InstructionTypes::XRI => "XRI"@,
        InstructionTypes::CPI => "CPI"@,
        InstructionTypes::JMP => "JMP"@,
        InstructionTypes::JNZ => "JNZ"@,
        InstructionTypes::JZ => "JZ"@,
        InstructionTypes::JNC => "JNC"@,
        InstructionTypes::JC => "JC"@,
        InstructionTypes::JPO => "JPO"@,
        InstructionTypes::JPE => "JPE"@,
        InstructionTypes::JP => "JP"@,
        InstructionTypes::JM => "JM"@,
        InstructionTypes::LXI => "LXI"@,
        InstructionTypes::DCR => "DCR"@,
        InstructionTypes::DAD => "DAD"@,
        InstructionTypes::RRC => "RRC"@,
        InstructionTypes::RLC => "RLC"@,
        InstructionTypes::RAL => "RAL"@,
        InstructionTypes::RAR => "RAR"@,
        InstructionTypes::INX => "INX"@,
        InstructionTypes::DCX => "DCX"@,
        InstructionTypes::LDA => "LDA"@,
        InstructionTypes::LDAX => "LDAX"@,
        InstructionTypes::STA => "STA"@,
        InstructionTypes::PUSH => "PUSH"@,
        InstructionTypes::POP => "POP"@,
        InstructionTypes::CALL => "CALL"@,
        InstructionTypes::NOP => "NOP"@,
        InstructionTypes::RET => "RET"@,
        InstructionTypes::XCHG => "XCHG"@,
        InstructionTypes::OUT => "OUT"@,
        InstructionTypes::EI => "EI"@,
        InstructionTypes::DI => "DI"@,
        InstructionTypes::INR => "INR"@,
        InstructionTypes::CP => "CP"@,
        InstructionTypes::CNZ => "CNZ"@,
        InstructionTypes::CC => "CC"@,
        InstructionTypes::CNC => "CNC"@,
        InstructionTypes::CPO => "CPO"@,
        InstructionTypes::CPE => "CPE"@,
        InstructionTypes::CM => "CM"@,
        InstructionTypes::CZ => "CZ"@,
        InstructionTypes::RC => "RC"@,
        InstructionTypes::RNC => "RNC"@,
        InstructionTypes::RZ => "RZ"@,
        InstructionTypes::RNZ => "RNZ"@,
        InstructionTypes::RM => "RM"@,
        InstructionTypes::RP => "RP"@,
        InstructionTypes::RPE => "RPE"@,
        InstructionTypes::RPO => "RPO"@,
        InstructionTypes::LHLD => "LHLD"@,
        InstructionTypes::SHLD => "SHLD"@,
        InstructionTypes::STAX => "STAX"@,
        InstructionTypes::STC => "STC"@,
        InstructionTypes::CMC => "CMC"@,
        InstructionTypes::CMA => "CMA"@,
        InstructionTypes::DAA => "DAA"@,
        InstructionTypes::SPHL => "SPHL"@,
        InstructionTypes::XTHL => "XTHL"@,
        InstructionTypes::PCHL => "PCHL"@,
        InstructionTypes::RST => "RST"@,
        InstructionTypes::Unknown => "??"@,
    }
}

/// Executable decoding of the 00 group.
fn kind_of_misc(b: u8) -> (k: InstructionTypes)
    requires
        b < 0x40,
    ensures
        k == spec_kind_misc(b),
{
    if b == 0x00 {
        InstructionTypes::NOP
    } else if b == 0x02 || b == 0x12 {
        InstructionTypes::STAX
    } else if b == 0x0A || b == 0x1A {
        InstructionTypes::LDAX
    } else if b == 0x07 {
        InstructionTypes::RLC
    } else if b == 0x0F {
        InstructionTypes::RRC
    } else if b == 0x17 {
        InstructionTypes::RAL
    } else if b == 0x1F {
        InstructionTypes::RAR
    } else if b == 0x22 {
        InstructionTypes::SHLD
    } else if b == 0x2A {
        InstructionTypes::LHLD
    } else if b == 0x27 {
        InstructionTypes::DAA
    } else if b == 0x2F {
        InstructionTypes::CMA
    } else if b == 0x32 {
        InstructionTypes::STA
    } else if b == 0x3A {
        InstructionTypes::LDA
    } else if b == 0x37 {
        InstructionTypes::STC
    } else if b == 0x3F {
        InstructionTypes::CMC
    } else if b % 16 == 1 {
        InstructionTypes::LXI
    } else if b % 16 == 3 {
        InstructionTypes::INX
    } else if b % 16 == 9 {
        InstructionTypes::DAD
    } else if b % 16 == 11 {
        InstructionTypes::DCX
    } else if b % 8 == 4 {
        InstructionTypes::INR
    } else if b % 8 == 5 {
        InstructionTypes::DCR
    } else if b % 8 == 6 {
        InstructionTypes::MVI
    } else {
        InstructionTypes::Unknown
    }
}

/// Executable decoding of the 10 group.
fn kind_of_arith(b: u8) -> (k: InstructionTypes)
    requires
        0x80 <= b < 0xC0,
    ensures
        k == spec_kind_arith(b),
{
    let op = (b / 8) % 8;
    if op == 0 {
        InstructionTypes::ADD
    } else if op == 1 {
        InstructionTypes::ADC
    } else if op == 2 {
        InstructionTypes::SUB
    } else if op == 3 {
        InstructionTypes::SBB
    } else if op == 4 {
        InstructionTypes::ANA
    } else if op == 5 {
        InstructionTypes::XRA
    } else if op == 6 {
        InstructionTypes::ORA
    } else {
        InstructionTypes::CMP
    }
}

/// Executable decoding of the 11 group.
fn kind_of_branch(b: u8) -> (k: InstructionTypes)
    requires
        0xC0 <= b,
    ensures
        k == spec_kind_branch(b),
{
    if b == 0xC3 {
        InstructionTypes::JMP
    } else if b == 0xC2 {
        InstructionTypes::JNZ
    } else if b == 0xCA {
        InstructionTypes::JZ
    } else if b == 0xD2 {
        InstructionTypes::JNC
    } else if b == 0xDA {
        InstructionTypes::JC
    } else if b == 0xE2 {
        InstructionTypes::JPO
    } else if b == 0xEA {
        InstructionTypes::JPE
    } else if b == 0xF2 {
        InstructionTypes::JP
    } else if b == 0xFA {
        InstructionTypes::JM
    } else if b == 0xCD {
        InstructionTypes::CALL
    } else if b == 0xC4 {
        InstructionTypes::CNZ
    } else if b == 0xCC {
        InstructionTypes::CZ
    } else if b == 0xD4 {
        InstructionTypes::CNC
    } else if b == 0xDC {
        InstructionTypes::CC
    } else if b == 0xE4 {
        InstructionTypes::CPO
    } else if b == 0xEC {
        InstructionTypes::CPE
    } else if b == 0xF4 {
        InstructionTypes::CP
    } else if b == 0xFC {
        InstructionTypes::CM
    } else if b == 0xC9 {
        InstructionTypes::RET
    } else if b == 0xC0 {
        InstructionTypes::RNZ
    } else if b == 0xC8 {
        InstructionTypes::RZ
    } else if b == 0xD0 {
        InstructionTypes::RNC
    } else if b == 0xD8 {
        InstructionTypes::RC
    } else if b == 0xE0 {
        InstructionTypes::RPO
    } else if b == 0xE8 {
        InstructionTypes::RPE
    } else if b == 0xF0 {
        InstructionTypes::RP
    } else if b == 0xF8 {
        InstructionTypes::RM
    } else if b % 16 == 1 {
        InstructionTypes::POP
    } else if b % 16 == 5 {
        InstructionTypes::PUSH
    } else if b % 8 == 7 {
        InstructionTypes::RST
    } else if b == 0xC6 {
        InstructionTypes::ADI
    } else if b == 0xCE {
        InstructionTypes::ACI
    } else if b == 0xD6 {
        InstructionTypes::SUI
    } else if b == 0xDE {
        InstructionTypes::SBI
    } else if b == 0xE6 {
        InstructionTypes::ANI
    } else if b == 0xEE {
        InstructionTypes::XRI
    } else if b == 0xF6 {
        InstructionTypes::ORI
    } else if b == 0xFE {
        InstructionTypes::CPI
    } else if b == 0xD3 {
        InstructionTypes::OUT
    } else if b == 0xE3 {
        InstructionTypes::XTHL
    } else if b == 0xE9 {
        InstructionTypes::PCHL
    } else if b == 0xEB {
        InstructionTypes::XCHG
    } else if b == 0xF3 {
        InstructionTypes::DI
    } else if b == 0xF9 {
        InstructionTypes::SPHL
    } else if b == 0xFB {
        InstructionTypes::EI
    } else {
        InstructionTypes::Unknown
    }
}

/// Executable form of the kind table.
fn kind_of(b: u8) -> (k: InstructionTypes)
    ensures
        k == spec_kind(b),
{
    if b < 0x40 {
        kind_of_misc(b)
    } else if b < 0x80 {
        InstructionTypes::MOV
    } else if b < 0xC0 {
        kind_of_arith(b)
    } else {
        kind_of_branch(b)
    }
}

/// Executable form of the addressing-mode table.
fn mode_of_kind(k: InstructionTypes, b: u8) -> (m: AddressMode)
    ensures
        m == spec_mode_of_kind(k, b),
{
    match k {
        InstructionTypes::MOV => AddressMode::Direct,
        InstructionTypes::ADD => AddressMode::Direct,
        InstructionTypes::ADC => AddressMode::Direct,
        InstructionTypes::SUB => AddressMode::Direct,
        InstructionTypes::SBB => AddressMode::Direct,
        InstructionTypes::ANA => AddressMode::Direct,
        InstructionTypes::XRA => AddressMode::Direct,
        InstructionTypes::ORA => AddressMode::Direct,
        InstructionTypes::CMP => AddressMode::Direct,
        InstructionTypes::MVI => AddressMode::ImmediateOneByte,
        InstructionTypes::ADI => AddressMode::ImmediateOneByte,
        InstructionTypes::ACI => AddressMode::ImmediateOneByte,
        InstructionTypes::SUI => AddressMode::ImmediateOneByte,
        InstructionTypes::SBI => AddressMode::ImmediateOneByte,
        InstructionTypes::ANI => AddressMode::ImmediateOneByte,
        InstructionTypes::ORI => AddressMode::ImmediateOneByte,
        InstructionTypes::XRI => AddressMode::ImmediateOneByte,
        InstructionTypes::CPI => AddressMode::ImmediateOneByte,
        InstructionTypes::JMP => AddressMode::ImmediateTwoBytes,
        InstructionTypes::JNZ => AddressMode::ImmediateTwoBytes,
        InstructionTypes::JZ => AddressMode::ImmediateTwoBytes,
        InstructionTypes::JNC => AddressMode::ImmediateTwoBytes,
        InstructionTypes::JC => AddressMode::ImmediateTwoBytes,
        InstructionTypes::JPO => AddressMode::ImmediateTwoBytes,
        InstructionTypes::JPE => AddressMode::ImmediateTwoBytes,
        InstructionTypes::JP => AddressMode::ImmediateTwoBytes,
        InstructionTypes::JM => AddressMode::ImmediateTwoBytes,
        InstructionTypes::LXI => AddressMode::ImmediateTwoBytes,
        InstructionTypes::DCR => AddressMode::Direct,
        InstructionTypes::DAD => AddressMode::Direct,
        InstructionTypes::RRC => AddressMode::Direct,
        InstructionTypes::RLC => AddressMode::Direct,
        InstructionTypes::RAL => AddressMode::Direct,
        InstructionTypes::RAR => AddressMode::Direct,
        InstructionTypes::INX => AddressMode::Pair,
        InstructionTypes::DCX => AddressMode::Direct,
        InstructionTypes::LDA => AddressMode::ImmediateTwoBytes,
        InstructionTypes::LDAX => AddressMode::Pair,
        InstructionTypes::STA => AddressMode::ImmediateTwoBytes,
        InstructionTypes::PUSH => AddressMode::StackPointer,
        InstructionTypes::POP => AddressMode::StackPointer,
        InstructionTypes::CALL => AddressMode::ImmediateTwoBytes,
        InstructionTypes::NOP => AddressMode::Unknown,
        InstructionTypes::RET => AddressMode::Direct,
        InstructionTypes::XCHG => AddressMode::Pair,
        InstructionTypes::OUT => AddressMode::Unknown,
        InstructionTypes::EI => AddressMode::Unknown,
        InstructionTypes::DI => AddressMode::Unknown,
        InstructionTypes::INR => AddressMode::Direct,
        InstructionTypes::CP => AddressMode::ImmediateTwoBytes,
        InstructionTypes::CNZ => AddressMode::ImmediateTwoBytes,
        InstructionTypes::CC => AddressMode::ImmediateTwoBytes,
        InstructionTypes::CNC => AddressMode::ImmediateTwoBytes,
        InstructionTypes::CPO => AddressMode::ImmediateTwoBytes,
        InstructionTypes::CPE => AddressMode::ImmediateTwoBytes,
        InstructionTypes::CM => AddressMode::ImmediateTwoBytes,
        InstructionTypes::CZ => AddressMode::ImmediateTwoBytes,
        InstructionTypes::RC => AddressMode::Direct,
        InstructionTypes::RNC => AddressMode::Direct,
        InstructionTypes::RZ => AddressMode::Direct,
        InstructionTypes::RNZ => AddressMode::Direct,
        InstructionTypes::RM => AddressMode::Direct,
        InstructionTypes::RP => AddressMode::Direct,
        InstructionTypes::RPE => AddressMode::Direct,
        InstructionTypes::RPO => AddressMode::StackPointer,
        InstructionTypes::LHLD => AddressMode::ImmediateTwoBytes,
        InstructionTypes::SHLD => AddressMode::ImmediateTwoBytes,
        InstructionTypes::STAX => AddressMode::Pair,
        InstructionTypes::STC => AddressMode::Unknown,
        InstructionTypes::CMC => AddressMode::Unknown,
        InstructionTypes::CMA => AddressMode::Unknown,
        InstructionTypes::DAA => AddressMode::Unknown,
        InstructionTypes::SPHL => AddressMode::Pair,
        InstructionTypes::XTHL => AddressMode::Pair,
        InstructionTypes::PCHL => AddressMode::Pair,
        InstructionTypes::RST => AddressMode::Direct,
        InstructionTypes::Unknown => AddressMode::Unknown,
    }
}

/// Executable extraction of the first operand selector.
fn low_nibble_of(k: InstructionTypes, b: u8) -> (r: Option<u8>)
    requires
        k == spec_kind(b),
    ensures
        r == spec_low_nibble(b),
{
    match k {
        InstructionTypes::MOV => Some((b / 8) % 8),
        InstructionTypes::ADD => Some(b % 8),
        InstructionTypes::ADC => Some(b % 8),
        InstructionTypes::SUB => Some(b % 8),
        InstructionTypes::SBB => Some(b % 8),
        InstructionTypes::ANA => Some(b % 8),
        InstructionTypes::XRA => Some(b % 8),
        InstructionTypes::ORA => Some(b % 8),
        InstructionTypes::CMP => Some(b % 8),
        InstructionTypes::MVI => Some((b / 8) % 8),
        InstructionTypes::INR => Some((b / 8) % 8),
        InstructionTypes::DCR => Some((b / 8) % 8),
        InstructionTypes::LXI => Some((b / 16) % 4),
        InstructionTypes::INX => Some((b / 16) % 4),
        InstructionTypes::DCX => Some((b / 16) % 4),
        InstructionTypes::DAD => Some((b / 16) % 4),
        InstructionTypes::PUSH => Some((b / 16) % 4),
        InstructionTypes::POP => Some((b / 16) % 4),
        _ => None,
    }
}

/// Executable extraction of the second operand selector.
fn high_nibble_of(k: InstructionTypes, b: u8) -> (r: Option<u8>)
    requires
        k == spec_kind(b),
    ensures
        r == spec_high_nibble(b),
{
    match k {
        InstructionTypes::MOV => Some(b % 8),
        _ => None,
    }
}

impl Instruction {
    /// The placeholder instruction held before any fetch: opcode zero but
    /// explicitly unrecognized.
    pub fn new() -> (ins: Instruction)
        ensures
            ins == (Instruction {
                machine_code: 0,
                immediate_lsb: 0,
                immediate_msb: 0,
                address_mode: AddressMode::Unknown,
                instruction_type: InstructionTypes::Unknown,
                low_nibble: None,
                high_nibble: None,
            }),
    {
        Instruction {
            machine_code: 0,
            immediate_lsb: 0,
            immediate_msb: 0,
            address_mode: AddressMode::Unknown,
            instruction_type: InstructionTypes::Unknown,
            low_nibble: None,
            high_nibble: None,
        }
    }

    /// Decode a lone opcode byte; the trailing bytes are taken as zero.
    pub fn from_byte(b: u8) -> (ins: Instruction)
        ensures
            ins == spec_decode(b, 0, 0),
    {
        let mut instruction = Instruction::new();
        instruction.byte_to_op(b, 0, 0);
        instruction
    }

    /// Decode an opcode byte together with the two bytes that follow it in
    /// the instruction stream, replacing this instruction.
    pub fn byte_to_op(&mut self, b: u8, immediate_lsb: u8, immediate_msb: u8)
        ensures
            *final(self) == spec_decode(b, immediate_lsb, immediate_msb),
    {
        let kind = kind_of(b);
        *self = Instruction {
            machine_code: b,
            immediate_lsb,
            immediate_msb,
            address_mode: mode_of_kind(kind, b),
            instruction_type: kind,
            low_nibble: low_nibble_of(kind, b),
            high_nibble: high_nibble_of(kind, b),
        };
    }

    /// The raw opcode byte and the mnemonic of the decoded kind.
    pub fn get_name_byte(self) -> (r: (u8, String))
        ensures
            r.0 == self.machine_code,
            r.1@ == spec_mnemonic(self.instruction_type),
    {
        (self.machine_code, self.mnemonic())
    }

    /// The mnemonic of the decoded kind, for disassembly display.
    pub fn mnemonic(&self) -> (r: String)
        ensures
            r@ == spec_mnemonic(self.instruction_type),
    {
        match self.instruction_type {
            InstructionTypes::MOV => String::from_str("MOV"),
            InstructionTypes::ADD => String::from_str("ADD"),
            InstructionTypes::ADC => String::from_str("ADC"),
            InstructionTypes::SUB => String::from_str("SUB"),
            InstructionTypes::SBB => String::from_str("SBB"),
            InstructionTypes::ANA => String::from_str("ANA"),
            InstructionTypes::XRA => String::from_str("XRA"),
            InstructionTypes::ORA => String::from_str("ORA"),
            InstructionTypes::CMP => String::from_str("CMP"),
            InstructionTypes::MVI => String::from_str("MVI"),
            InstructionTypes::ADI => String::from_str("ADI"),
            InstructionTypes::ACI => String::from_str("ACI"),
            InstructionTypes::SUI => String::from_str("SUI"),
            InstructionTypes::SBI => String::from_str("SBI"),
            InstructionTypes::ANI => String::from_str("ANI"),
            InstructionTypes::ORI => String::from_str("ORI"),
            InstructionTypes::XRI => String::from_str("XRI"),
            InstructionTypes::CPI => String::from_str("CPI"),
            InstructionTypes::JMP => String::from_str("JMP"),
            InstructionTypes::JNZ => String::from_str("JNZ"),
            InstructionTypes::JZ => String::from_str("JZ"),
            InstructionTypes::JNC => String::from_str("JNC"),
            InstructionTypes::JC => String::from_str("JC"),
            InstructionTypes::JPO => String::from_str("JPO"),
            InstructionTypes::JPE => String::from_str("JPE"),
            InstructionTypes::JP => String::from_str("JP"),
            InstructionTypes::JM => String::from_str("JM"),
            InstructionTypes::LXI => String::from_str("LXI"),
            InstructionTypes::DCR => String::from_str("DCR"),
            InstructionTypes::DAD => String::from_str("DAD"),
            InstructionTypes::RRC => String::from_str("RRC"),
            InstructionTypes::RLC => String::from_str("RLC"),
            InstructionTypes::RAL => String::from_str("RAL"),
            InstructionTypes::RAR => String::from_str("RAR"),
            InstructionTypes::INX => String::from_str("INX"),
            InstructionTypes::DCX => String::from_str("DCX"),
            InstructionTypes::LDA => String::from_str("LDA"),
            InstructionTypes::LDAX => String::from_str("LDAX"),
            InstructionTypes::STA => String::from_str("STA"),
            InstructionTypes::PUSH => String::from_str("PUSH"),
            InstructionTypes::POP => String::from_str("POP"),
            InstructionTypes::CALL => String::from_str("CALL"),
            InstructionTypes::NOP => String::from_str("NOP"),
            InstructionTypes::RET => String::from_str("RET"),
            InstructionTypes::XCHG => String::from_str("XCHG"),
            InstructionTypes::OUT => String::from_str("OUT"),
            InstructionTypes::EI => String::from_str("EI"),
            InstructionTypes::DI => String::from_str("DI"),
            InstructionTypes::INR => String::from_str("INR"),
            InstructionTypes::CP => String::from_str("CP"),
            InstructionTypes::CNZ => String::from_str("CNZ"),
            InstructionTypes::CC => String::from_str("CC"),
            InstructionTypes::CNC => String::from_str("CNC"),
            InstructionTypes::CPO => String::from_str("CPO"),
            InstructionTypes::CPE => String::from_str("CPE"),
            InstructionTypes::CM => String::from_str("CM"),
            InstructionTypes::CZ => String::from_str("CZ"),
            InstructionTypes::RC => String::from_str("RC"),
            InstructionTypes::RNC => String::from_str("RNC"),
            InstructionTypes::RZ => String::from_str("RZ"),
            InstructionTypes::RNZ => String::from_str("RNZ"),
            InstructionTypes::RM => String::from_str("RM"),
            InstructionTypes::RP => String::from_str("RP"),
            InstructionTypes::RPE => String::from_str("RPE"),
            InstructionTypes::RPO => String::from_str("RPO"),
            InstructionTypes::LHLD => String::from_str("LHLD"),
            InstructionTypes::SHLD => String::from_str("SHLD"),
            InstructionTypes::STAX => String::from_str("STAX"),
            InstructionTypes::STC => String::from_str("STC"),
            InstructionTypes::CMC => String::from_str("CMC"),
            InstructionTypes::CMA => String::from_str("CMA"),
            InstructionTypes::DAA => String::from_str("DAA"),
            InstructionTypes::SPHL => String::from_str("SPHL"),
            InstructionTypes::XTHL => String::from_str("XTHL"),
            InstructionTypes::PCHL => String::from_str("PCHL"),
            InstructionTypes::RST => String::from_str("RST"),
            InstructionTypes::Unknown => String::from_str("??"),
        }
    }

    /// Length in bytes of the decoded instruction, fixed by its addressing
    /// mode: one, two, or three.
    pub fn get_length(&self) -> (len: u8)
        ensures
            len as int == spec_len_of_mode(self.address_mode),
            1 <= len <= 3,
    {
        match self.address_mode {
            AddressMode::Direct => 1,
            AddressMode::Pair => 1,
            AddressMode::StackPointer => 1,
            AddressMode::ImmediateOneByte => 2,
            AddressMode::ImmediateTwoBytes => 3,
            AddressMode::Unknown => 1,
        }
    }
}

} // verus!

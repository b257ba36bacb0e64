use vstd::prelude::*;

use crate::i8080::flags::{spec_flags_from_byte, spec_flags_to_byte, spec_parity, spec_sign,
    spec_zero, StatusFlags};
use crate::i8080::instructions::{spec_decode, spec_len_of_mode, AddressMode, Instruction,
    InstructionTypes};
use crate::i8080::registers::Registers;

verus! {

/// Size of the flat address space: every 16-bit address is valid.
pub const MEMORY_SIZE: usize = 0x10000;

/// Result of one clock step. An opcode with no defined mapping is fatal and
/// reported with the offending byte and the program counter; running past
/// the top of the address space is a controlled shutdown, not an error.
#[derive(Clone, Copy, Debug, PartialEq, Eq, Structural)]
pub enum ClockOutcome {
    Stepped,
    Halted,
    IllegalOpcode { opcode: u8, at: u16 },
}

/// What an instruction handler asks of the program counter: advance by the
/// decoded instruction's length, or continue at an explicit target.
#[derive(Clone, Copy, Debug, PartialEq, Eq, Structural)]
pub enum PcUpdate {
    Sequential,
    Jump(u16),
}

/// The mathematical model of the processor: every architectural component
/// as a plain value. The executable processor's view is a value of this
/// type, and every contract speaks in terms of it.
pub ghost struct CpuState {
    pub registers: Registers,
    pub flags: StatusFlags,
    pub program_counter: u16,
    pub stack_pointer: u16,
    pub memory: Seq<u8>,
    pub current_op: Instruction,
    pub out: u8,
    pub interrupts_enabled: bool,
}

/// The processor's structural invariant: the memory covers exactly the
/// 16-bit address space.
pub open spec fn spec_inv(s: CpuState) -> bool {
    s.memory.len() == MEMORY_SIZE
}

/// 16-bit wraparound of a non-negative address computation.
pub open spec fn wrap16(a: int) -> u16 {
    (a % 0x10000) as u16
}

/// A 16-bit value from a high and a low byte.
pub open spec fn spec_pair16(msb: u8, lsb: u8) -> u16 {
    ((msb as int) * 256 + (lsb as int)) as u16
}

/// High byte of a 16-bit value.
pub open spec fn spec_msb(w: u16) -> u8 {
    ((w as int) / 256) as u8
}

/// Low byte of a 16-bit value.
pub open spec fn spec_lsb(w: u16) -> u8 {
    ((w as int) % 256) as u8
}

/// The memory byte at an address.
pub open spec fn spec_mem(s: CpuState, addr: u16) -> u8 {
    s.memory[addr as int]
}

/// The memory address held in the HL pair.
pub open spec fn spec_hl(s: CpuState) -> u16 {
    spec_pair16(s.registers.h, s.registers.l)
}

/// Value of a three-bit register selector: a named register, or the memory
/// byte addressed by HL for selector 6.
pub open spec fn spec_get_reg(s: CpuState, code: u8) -> u8 {
    let c = (code as int) % 8;
    if c == 0 {
        s.registers.b
    } else if c == 1 {
        s.registers.c
    } else if c == 2 {
        s.registers.d
    } else if c == 3 {
        s.registers.e
    } else if c == 4 {
        s.registers.h
    } else if c == 5 {
        s.registers.l
    } else if c == 6 {
        spec_mem(s, spec_hl(s))
    } else {
        s.registers.accumulator
    }
}

/// Write through a three-bit register selector.
pub open spec fn spec_set_reg(s: CpuState, code: u8, v: u8) -> CpuState {
    let c = (code as int) % 8;
    if c == 0 {
        CpuState { registers: Registers { b: v, ..s.registers }, ..s }
    } else if c == 1 {
        CpuState { registers: Registers { c: v, ..s.registers }, ..s }
    } else if c == 2 {
        CpuState { registers: Registers { d: v, ..s.registers }, ..s }
    } else if c == 3 {
        CpuState { registers: Registers { e: v, ..s.registers }, ..s }
    } else if c == 4 {
        CpuState { registers: Registers { h: v, ..s.registers }, ..s }
    } else if c == 5 {
        CpuState { registers: Registers { l: v, ..s.registers }, ..s }
    } else if c == 6 {
        CpuState { memory: s.memory.update(spec_hl(s) as int, v), ..s }
    } else {
        CpuState { registers: Registers { accumulator: v, ..s.registers }, ..s }
    }
}

/// A register pair as (high byte, low byte). Selector 3 denotes the stack
/// pointer here; PUSH and POP resolve it to the program status word through
/// their own dedicated path instead.
pub open spec fn spec_get_pair(s: CpuState, code: u8) -> (u8, u8) {
    let c = (code as int) % 4;
    if c == 0 {
        (s.registers.b, s.registers.c)
    } else if c == 1 {
        (s.registers.d, s.registers.e)
    } else if c == 2 {
        (s.registers.h, s.registers.l)
    } else {
        (spec_msb(s.stack_pointer), spec_lsb(s.stack_pointer))
    }
}

/// Write a register pair from a high and a low byte; selector 3 writes the
/// stack pointer.
pub open spec fn spec_set_pair(s: CpuState, code: u8, msb: u8, lsb: u8) -> CpuState {
    let c = (code as int) % 4;
    if c == 0 {
        CpuState { registers: Registers { b: msb, c: lsb, ..s.registers }, ..s }
    } else if c == 1 {
        CpuState { registers: Registers { d: msb, e: lsb, ..s.registers }, ..s }
    } else if c == 2 {
        CpuState { registers: Registers { h: msb, l: lsb, ..s.registers }, ..s }
    } else {
        CpuState { stack_pointer: spec_pair16(msb, lsb), ..s }
    }
}

/// Zero, sign and parity recomputed from a result byte; the other flags
/// keep their value.
pub open spec fn spec_zsp(f: StatusFlags, res: u8) -> StatusFlags {
    StatusFlags {
        zero_flag: spec_zero(res),
        sign_flag: spec_sign(res),
        parity_flag: spec_parity(res),
        ..f
    }
}

/// All five flags after an arithmetic or logical result: carry and
/// auxiliary carry as given, zero, sign and parity from the result byte.
pub open spec fn spec_flags_cszp(carry: bool, aux: bool, res: u8) -> StatusFlags {
    StatusFlags {
        carry_flag: carry,
        auxiliary_flag: aux,
        zero_flag: spec_zero(res),
        sign_flag: spec_sign(res),
        parity_flag: spec_parity(res),
    }
}

/// The byte immediately after the opcode, for one-byte-immediate forms.
pub open spec fn spec_imm(s: CpuState) -> u8 {
    spec_mem(s, wrap16(s.program_counter as int + 1))
}

/// The little-endian address held in the two bytes after the opcode.
pub open spec fn spec_direct_addr(s: CpuState) -> u16 {
    spec_pair16(
        spec_mem(s, wrap16(s.program_counter as int + 2)),
        spec_mem(s, wrap16(s.program_counter as int + 1)),
    )
}

/// The arithmetic-group operand: the selected register or HL-addressed
/// byte, or the trailing immediate byte for the immediate forms.
pub open spec fn spec_operand(s: CpuState, imm: bool) -> u8 {
    if imm {
        spec_imm(s)
    } else {
        spec_get_reg(s, s.current_op.low_nibble.unwrap())
    }
}

/// MOV: copy between registers or the HL-addressed byte. The destination
/// selector sits in opcode bits 5 to 3, the source in bits 2 to 0.
pub open spec fn spec_step_mov(s: CpuState) -> (CpuState, PcUpdate) {
    let v = spec_get_reg(s, s.current_op.high_nibble.unwrap());
    (spec_set_reg(s, s.current_op.low_nibble.unwrap(), v), PcUpdate::Sequential)
}

/// ADD, ADC and their immediate forms: accumulator plus operand, plus the
/// incoming carry for the with-carry forms. Carry is the unsigned overflow
/// of the full sum; auxiliary carry is the overflow of the operands' low
/// nibbles; zero, sign and parity follow the result byte.
pub open spec fn spec_step_add(s: CpuState, with_carry: bool, imm: bool) -> (CpuState, PcUpdate) {
    let a = s.registers.accumulator;
    let b = spec_operand(s, imm);
    let cin: int = if with_carry && s.flags.carry_flag {
        1
    } else {
        0
    };
    let total = a + b + cin;
    let res = (total % 256) as u8;
    let carry = total > 255;
    let aux = (a as int) % 16 + (b as int) % 16 > 15;
    (
        CpuState {
            registers: Registers { accumulator: res, ..s.registers },
            flags: spec_flags_cszp(carry, aux, res),
            ..s
        },
        PcUpdate::Sequential,
    )
}

/// SUB, SBB and their immediate forms: accumulator minus operand, minus the
/// incoming carry for the with-borrow forms. Carry is the unsigned borrow;
/// auxiliary carry is set when the operand's low nibble exceeds the
/// accumulator's.
pub open spec fn spec_step_sub(s: CpuState, with_carry: bool, imm: bool) -> (CpuState, PcUpdate) {
    let a = s.registers.accumulator;
    let b = spec_operand(s, imm);
    let cin: int = if with_carry && s.flags.carry_flag {
        1
    } else {
        0
    };
    let res = ((a + 512 - b - cin) % 256) as u8;
    let carry = a < b + cin;
    let aux = (a as int) % 16 < (b as int) % 16;
    (
        CpuState {
            registers: Registers { accumulator: res, ..s.registers },
            flags: spec_flags_cszp(carry, aux, res),
            ..s
        },
        PcUpdate::Sequential,
    )
}

/// CMP and CPI: the subtraction's flags without the result write-back.
pub open spec fn spec_step_cmp(s: CpuState, imm: bool) -> (CpuState, PcUpdate) {
    let a = s.registers.accumulator;
    let b = spec_operand(s, imm);
    let res = ((a + 512 - b) % 256) as u8;
    let carry = a < b;
    let aux = (a as int) % 16 < (b as int) % 16;
    (CpuState { flags: spec_flags_cszp(carry, aux, res), ..s }, PcUpdate::Sequential)
}

/// ANA and ANI: bitwise and into the accumulator; carry and auxiliary carry
/// are forced clear.
pub open spec fn spec_step_and(s: CpuState, imm: bool) -> (CpuState, PcUpdate) {
    let res = s.registers.accumulator & spec_operand(s, imm);
    (
        CpuState {
            registers: Registers { accumulator: res, ..s.registers },
            flags: spec_flags_cszp(false, false, res),
            ..s
        },
        PcUpdate::Sequential,
    )
}

/// ORA and ORI: bitwise or into the accumulator; carry and auxiliary carry
/// are forced clear.
pub open spec fn spec_step_or(s: CpuState, imm: bool) -> (CpuState, PcUpdate) {
    let res = s.registers.accumulator | spec_operand(s, imm);
    (
        CpuState {
            registers: Registers { accumulator: res, ..s.registers },
            flags: spec_flags_cszp(false, false, res),
            ..s
        },
        PcUpdate::Sequential,
    )
}

/// XRA and XRI: bitwise exclusive or into the accumulator; carry and
/// auxiliary carry are forced clear.
pub open spec fn spec_step_xor(s: CpuState, imm: bool) -> (CpuState, PcUpdate) {
    let res = s.registers.accumulator ^ spec_operand(s, imm);
    (
        CpuState {
            registers: Registers { accumulator: res, ..s.registers },
            flags: spec_flags_cszp(false, false, res),
            ..s
        },
        PcUpdate::Sequential,
    )
}

/// MVI: load the trailing immediate byte into the selected register or the
/// HL-addressed byte.
pub open spec fn spec_step_mvi(s: CpuState) -> (CpuState, PcUpdate) {
    (spec_set_reg(s, s.current_op.low_nibble.unwrap(), spec_imm(s)), PcUpdate::Sequential)
}

/// LXI: load the two trailing bytes into the selected register pair, the
/// low byte first.
pub open spec fn spec_step_lxi(s: CpuState) -> (CpuState, PcUpdate) {
    let lsb = spec_mem(s, wrap16(s.program_counter as int + 1));
    let msb = spec_mem(s, wrap16(s.program_counter as int + 2));
    (spec_set_pair(s, s.current_op.low_nibble.unwrap(), msb, lsb), PcUpdate::Sequential)
}

/// DAD: add the selected pair into HL; only the carry flag is updated.
pub open spec fn spec_step_dad(s: CpuState) -> (CpuState, PcUpdate) {
    let p = spec_get_pair(s, s.current_op.low_nibble.unwrap());
    let total = spec_pair16(p.0, p.1) + spec_hl(s);
    let res = wrap16(total);
    (
        CpuState {
            registers: Registers { h: spec_msb(res), l: spec_lsb(res), ..s.registers },
            flags: StatusFlags { carry_flag: total > 0xFFFF, ..s.flags },
            ..s
        },
        PcUpdate::Sequential,
    )
}

/// INX: step the selected pair up by one, wrapping, with no flag effects.
pub open spec fn spec_step_inx(s: CpuState) -> (CpuState, PcUpdate) {
    let code = s.current_op.low_nibble.unwrap();
    let p = spec_get_pair(s, code);
    let res = wrap16(spec_pair16(p.0, p.1) + 1);
    (spec_set_pair(s, code, spec_msb(res), spec_lsb(res)), PcUpdate::Sequential)
}

/// DCX: step the selected pair down by one, wrapping, with no flag effects.
pub open spec fn spec_step_dcx(s: CpuState) -> (CpuState, PcUpdate) {
    let code = s.current_op.low_nibble.unwrap();
    let p = spec_get_pair(s, code);
    let res = wrap16(spec_pair16(p.0, p.1) + 0xFFFF);
    (spec_set_pair(s, code, spec_msb(res), spec_lsb(res)), PcUpdate::Sequential)
}

/// INR: step a register or the HL-addressed byte up by one. Auxiliary carry
/// is set exactly when the low nibble was full; zero, sign and parity
/// follow the result; carry is untouched.
pub open spec fn spec_step_inr(s: CpuState) -> (CpuState, PcUpdate) {
    let code = s.current_op.low_nibble.unwrap();
    let v = spec_get_reg(s, code);
    let res = ((v + 1) % 256) as u8;
    let f = StatusFlags { auxiliary_flag: (v as int) % 16 == 15, ..spec_zsp(s.flags, res) };
    (CpuState { flags: f, ..spec_set_reg(s, code, res) }, PcUpdate::Sequential)
}

/// DCR: step a register or the HL-addressed byte down by one. Auxiliary
/// carry is set exactly when the low nibble was empty; zero, sign and
/// parity follow the result; carry is untouched.
pub open spec fn spec_step_dcr(s: CpuState) -> (CpuState, PcUpdate) {
    let code = s.current_op.low_nibble.unwrap();
    let v = spec_get_reg(s, code);
    let res = ((v + 255) % 256) as u8;
    let f = StatusFlags { auxiliary_flag: (v as int) % 16 == 0, ..spec_zsp(s.flags, res) };
    (CpuState { flags: f, ..spec_set_reg(s, code, res) }, PcUpdate::Sequential)
}

/// RLC: rotate the accumulator left; carry receives the bit rotated around.
pub open spec fn spec_step_rlc(s: CpuState) -> (CpuState, PcUpdate) {
    let a = s.registers.accumulator;
    let res = (((a as int) % 128) * 2 + (a as int) / 128) as u8;
    (
        CpuState {
            registers: Registers { accumulator: res, ..s.registers },
            flags: StatusFlags { carry_flag: (res as int) % 2 == 1, ..s.flags },
            ..s
        },
        PcUpdate::Sequential,
    )
}

/// RRC: rotate the accumulator right; carry receives the bit rotated
/// around.
pub open spec fn spec_step_rrc(s: CpuState) -> (CpuState, PcUpdate) {
    let a = s.registers.accumulator;
    let res = ((a as int) / 2 + ((a as int) % 2) * 128) as u8;
    (
        CpuState {
            registers: Registers { accumulator: res, ..s.registers },
            flags: StatusFlags { carry_flag: res >= 0x80, ..s.flags },
            ..s
        },
        PcUpdate::Sequential,
    )
}

/// RAL: rotate left through the carry flag.
pub open spec fn spec_step_ral(s: CpuState) -> (CpuState, PcUpdate) {
    let a = s.registers.accumulator;
    let cin: int = if s.flags.carry_flag {
        1
    } else {
        0
    };
    let res = (((a as int) % 128) * 2 + cin) as u8;
    (
        CpuState {
            registers: Registers { accumulator: res, ..s.registers },
            flags: StatusFlags { carry_flag: a >= 0x80, ..s.flags },
            ..s
        },
        PcUpdate::Sequential,
    )
}

/// RAR: rotate right through the carry flag.
pub open spec fn spec_step_rar(s: CpuState) -> (CpuState, PcUpdate) {
    let a = s.registers.accumulator;
    let cin: int = if s.flags.carry_flag {
        1
    } else {
        0
    };
    let res = ((a as int) / 2 + cin * 128) as u8;
    (
        CpuState {
            registers: Registers { accumulator: res, ..s.registers },
            flags: StatusFlags { carry_flag: (a as int) % 2 == 1, ..s.flags },
            ..s
        },
        PcUpdate::Sequential,
    )
}

/// LDA: load the accumulator from the direct address.
pub open spec fn spec_step_lda(s: CpuState) -> (CpuState, PcUpdate) {
    let v = spec_mem(s, spec_direct_addr(s));
    (
        CpuState { registers: Registers { accumulator: v, ..s.registers }, ..s },
        PcUpdate::Sequential,
    )
}

/// STA: store the accumulator at the direct address.
pub open spec fn spec_step_sta(s: CpuState) -> (CpuState, PcUpdate) {
    (
        CpuState {
            memory: s.memory.update(spec_direct_addr(s) as int, s.registers.accumulator),
            ..s
        },
        PcUpdate::Sequential,
    )
}

/// Which pair LDAX and STAX address: DE when opcode bit 4 is set, else BC.
pub open spec fn spec_bd_addr(s: CpuState) -> u16 {
    if ((s.current_op.machine_code as int) / 16) % 2 == 1 {
        spec_pair16(s.registers.d, s.registers.e)
    } else {
        spec_pair16(s.registers.b, s.registers.c)
    }
}

/// LDAX: load the accumulator through the BC or DE pair.
pub open spec fn spec_step_ldax(s: CpuState) -> (CpuState, PcUpdate) {
    let v = spec_mem(s, spec_bd_addr(s));
    (
        CpuState { registers: Registers { accumulator: v, ..s.registers }, ..s },
        PcUpdate::Sequential,
    )
}

/// STAX: store the accumulator through the BC or DE pair.
pub open spec fn spec_step_stax(s: CpuState) -> (CpuState, PcUpdate) {
    (
        CpuState { memory: s.memory.update(spec_bd_addr(s) as int, s.registers.accumulator), ..s },
        PcUpdate::Sequential,
    )
}

/// LHLD: load L and H from the direct address and the byte after it.
pub open spec fn spec_step_lhld(s: CpuState) -> (CpuState, PcUpdate) {
    let addr = spec_direct_addr(s);
    let l = spec_mem(s, addr);
    let h = spec_mem(s, wrap16(addr as int + 1));
    (CpuState { registers: Registers { h, l, ..s.registers }, ..s }, PcUpdate::Sequential)
}

/// SHLD: store L and H at the direct address and the byte after it.
pub open spec fn spec_step_shld(s: CpuState) -> (CpuState, PcUpdate) {
    let addr = spec_direct_addr(s);
    (
        CpuState {
            memory: s.memory.update(addr as int, s.registers.l).update(
                wrap16(addr as int + 1) as int,
                s.registers.h,
            ),
            ..s
        },
        PcUpdate::Sequential,
    )
}

/// The two bytes PUSH stores for a pair selector: the selected pair, or for
/// selector 3 the program status word — the flags byte and the accumulator.
pub open spec fn spec_push_bytes(s: CpuState, code: u8) -> (u8, u8) {
    if (code as int) % 4 == 3 {
        (spec_flags_to_byte(s.flags), s.registers.accumulator)
    } else {
        spec_get_pair(s, code)
    }
}

/// PUSH: store the pair's high byte below the stack pointer and the low
/// byte below that, then move the stack pointer down by two.
pub open spec fn spec_step_push(s: CpuState) -> (CpuState, PcUpdate) {
    let p = spec_push_bytes(s, s.current_op.low_nibble.unwrap());
    let a1 = wrap16(s.stack_pointer as int + 0xFFFF);
    let a2 = wrap16(s.stack_pointer as int + 0xFFFE);
    (
        CpuState {
            memory: s.memory.update(a1 as int, p.0).update(a2 as int, p.1),
            stack_pointer: a2,
            ..s
        },
        PcUpdate::Sequential,
    )
}

/// POP: read the low byte at the stack pointer and the high byte above it,
/// move the stack pointer up by two, and write the pair — for selector 3
/// the flags byte and the accumulator, not the stack pointer.
pub open spec fn spec_step_pop(s: CpuState) -> (CpuState, PcUpdate) {
    let code = s.current_op.low_nibble.unwrap();
    let lsb = spec_mem(s, s.stack_pointer);
    let msb = spec_mem(s, wrap16(s.stack_pointer as int + 1));
    let s1 = CpuState { stack_pointer: wrap16(s.stack_pointer as int + 2), ..s };
    if (code as int) % 4 == 3 {
        (
            CpuState {
                flags: spec_flags_from_byte(msb),
                registers: Registers { accumulator: lsb, ..s1.registers },
                ..s1
            },
            PcUpdate::Sequential,
        )
    } else {
        (spec_set_pair(s1, code, msb, lsb), PcUpdate::Sequential)
    }
}

/// Jumps: when the condition holds, continue at the direct address;
/// otherwise fall through to the next instruction.
pub open spec fn spec_step_jump(s: CpuState, cond: bool) -> (CpuState, PcUpdate) {
    if cond {
        (s, PcUpdate::Jump(spec_direct_addr(s)))
    } else {
        (s, PcUpdate::Sequential)
    }
}

/// Calls: when the condition holds, push the address of the following
/// instruction — the current program counter plus three, wrapping — high
/// byte first, move the stack pointer down by two, and continue at the
/// direct address.
pub open spec fn spec_step_call(s: CpuState, cond: bool) -> (CpuState, PcUpdate) {
    if cond {
        let ret = wrap16(s.program_counter as int + 3);
        let a1 = wrap16(s.stack_pointer as int + 0xFFFF);
        let a2 = wrap16(s.stack_pointer as int + 0xFFFE);
        (
            CpuState {
                memory: s.memory.update(a1 as int, spec_msb(ret)).update(
                    a2 as int,
                    spec_lsb(ret),
                ),
                stack_pointer: a2,
                ..s
            },
            PcUpdate::Jump(spec_direct_addr(s)),
        )
    } else {
        (s, PcUpdate::Sequential)
    }
}

/// Returns: when the condition holds, pop the return address — low byte at
/// the stack pointer, high byte above it — move the stack pointer up by
/// two, and continue there.
pub open spec fn spec_step_ret(s: CpuState, cond: bool) -> (CpuState, PcUpdate) {
    if cond {
        let addr = spec_pair16(
            spec_mem(s, wrap16(s.stack_pointer as int + 1)),
            spec_mem(s, s.stack_pointer),
        );
        (
            CpuState { stack_pointer: wrap16(s.stack_pointer as int + 2), ..s },
            PcUpdate::Jump(addr),
        )
    } else {
        (s, PcUpdate::Sequential)
    }
}

/// RST: store the program counter's low nibbles as two stack bytes, move
/// the stack pointer down by two, and continue at the reset address held in
/// opcode bits 5 to 3 times eight.
pub open spec fn spec_step_rst(s: CpuState) -> (CpuState, PcUpdate) {
    let target = ((((s.current_op.machine_code as int) / 8) % 8) * 8) as u16;
    let a1 = wrap16(s.stack_pointer as int + 0xFFFF);
    let a2 = wrap16(s.stack_pointer as int + 0xFFFE);
    let b1 = ((s.program_counter as int) % 16) as u8;
    let b2 = (((s.program_counter as int) / 256) % 16) as u8;
    (
        CpuState {
            memory: s.memory.update(a1 as int, b1).update(a2 as int, b2),
            stack_pointer: a2,
            ..s
        },
        PcUpdate::Jump(target),
    )
}

/// XCHG: swap the DE and HL pairs.
pub open spec fn spec_step_xchg(s: CpuState) -> (CpuState, PcUpdate) {
    (
        CpuState {
            registers: Registers {
                d: s.registers.h,
                e: s.registers.l,
                h: s.registers.d,
                l: s.registers.e,
                ..s.registers
            },
            ..s
        },
        PcUpdate::Sequential,
    )
}

/// XTHL: swap HL with the two bytes at the stack top.
pub open spec fn spec_step_xthl(s: CpuState) -> (CpuState, PcUpdate) {
    let sp1 = wrap16(s.stack_pointer as int + 1);
    let lsb = spec_mem(s, s.stack_pointer);
    let msb = spec_mem(s, sp1);
    (
        CpuState {
            registers: Registers { h: msb, l: lsb, ..s.registers },
            memory: s.memory.update(s.stack_pointer as int, s.registers.l).update(
                sp1 as int,
                s.registers.h,
            ),
            ..s
        },
        PcUpdate::Sequential,
    )
}

/// SPHL: copy HL into the stack pointer.
pub open spec fn spec_step_sphl(s: CpuState) -> (CpuState, PcUpdate) {
    (CpuState { stack_pointer: spec_hl(s), ..s }, PcUpdate::Sequential)
}

/// PCHL: continue at the address held in HL.
pub open spec fn spec_step_pchl(s: CpuState) -> (CpuState, PcUpdate) {
    (s, PcUpdate::Jump(spec_hl(s)))
}

/// OUT: copy the accumulator into the output latch.
pub open spec fn spec_step_out(s: CpuState) -> (CpuState, PcUpdate) {
    (CpuState { out: s.registers.accumulator, ..s }, PcUpdate::Sequential)
}

/// DAA: binary-coded-decimal adjustment. When the low nibble exceeds nine
/// or auxiliary carry is set, six is added, wrapping, and auxiliary carry
/// is set if the corrected low nibble fell below nine; when the high nibble
/// then exceeds nine or carry is set, ninety-six is added and carry
/// receives that addition's overflow.
pub open spec fn spec_step_daa(s: CpuState) -> (CpuState, PcUpdate) {
    let a0 = s.registers.accumulator;
    let low_adjust = (a0 as int) % 16 > 9 || s.flags.auxiliary_flag;
    let a1 = if low_adjust {
        ((a0 + 6) % 256) as u8
    } else {
        a0
    };
    let aux = if low_adjust && (a1 as int) % 16 < 9 {
        true
    } else {
        s.flags.auxiliary_flag
    };
    let high_adjust = (a1 as int) / 16 > 9 || s.flags.carry_flag;
    let a2 = if high_adjust {
        ((a1 + 0x60) % 256) as u8
    } else {
        a1
    };
    let carry = if high_adjust {
        a1 + 0x60 > 255
    } else {
        s.flags.carry_flag
    };
    (
        CpuState {
            registers: Registers { accumulator: a2, ..s.registers },
            flags: StatusFlags { auxiliary_flag: aux, carry_flag: carry, ..s.flags },
            ..s
        },
        PcUpdate::Sequential,
    )
}

/// The effect of the current instruction on everything but the program
/// counter, together with its program-counter request. The caller has
/// already ruled the unrecognized kind out; for totality it is a no-op
/// here.
pub open spec fn spec_exec_op(s: CpuState) -> (CpuState, PcUpdate) {
    match s.current_op.instruction_type {
        InstructionTypes::MOV => spec_step_mov(s),
        InstructionTypes::ADD => spec_step_add(s, false, false),
        InstructionTypes::ADC => spec_step_add(s, true, false),
        InstructionTypes::SUB => spec_step_sub(s, false, false),
        InstructionTypes::SBB => spec_step_sub(s, true, false),
        InstructionTypes::ANA => spec_step_and(s, false),
        InstructionTypes::XRA => spec_step_xor(s, false),
        InstructionTypes::ORA => spec_step_or(s, false),
        InstructionTypes::CMP => spec_step_cmp(s, false),
        InstructionTypes::MVI => spec_step_mvi(s),
        InstructionTypes::ADI => spec_step_add(s, false, true),
        InstructionTypes::ACI => spec_step_add(s, true, true),
        InstructionTypes::SUI => spec_step_sub(s, false, true),
        InstructionTypes::SBI => spec_step_sub(s, true, true),
        InstructionTypes::ANI => spec_step_and(s, true),
        InstructionTypes::ORI => spec_step_or(s, true),
        InstructionTypes::XRI => spec_step_xor(s, true),
        InstructionTypes::CPI => spec_step_cmp(s, true),
        InstructionTypes::JMP => spec_step_jump(s, true),
        InstructionTypes::JNZ => spec_step_jump(s, !s.flags.zero_flag),
        InstructionTypes::JZ => spec_step_jump(s, s.flags.zero_flag),
        InstructionTypes::JNC => spec_step_jump(s, !s.flags.carry_flag),
        InstructionTypes::JC => spec_step_jump(s, s.flags.carry_flag),
        InstructionTypes::JPO => spec_step_jump(s, !s.flags.parity_flag),
        InstructionTypes::JPE => spec_step_jump(s, s.flags.parity_flag),
        InstructionTypes::JP => spec_step_jump(s, !s.flags.sign_flag),
        InstructionTypes::JM => spec_step_jump(s, s.flags.sign_flag),
        InstructionTypes::LXI => spec_step_lxi(s),
        InstructionTypes::DCR => spec_step_dcr(s),
        InstructionTypes::DAD => spec_step_dad(s),
        InstructionTypes::RRC => spec_step_rrc(s),
        InstructionTypes::RLC => spec_step_rlc(s),
        InstructionTypes::RAL => spec_step_ral(s),
        InstructionTypes::RAR => spec_step_rar(s),
        InstructionTypes::INX => spec_step_inx(s),
        InstructionTypes::DCX => spec_step_dcx(s),
        InstructionTypes::LDA => spec_step_lda(s),
        InstructionTypes::LDAX => spec_step_ldax(s),
        InstructionTypes::STA => spec_step_sta(s),
        InstructionTypes::PUSH => spec_step_push(s),
        InstructionTypes::POP => spec_step_pop(s),
        InstructionTypes::CALL => spec_step_call(s, true),
        InstructionTypes::NOP => (s, PcUpdate::Sequential),
        InstructionTypes::RET => spec_step_ret(s, true),
        InstructionTypes::XCHG => spec_step_xchg(s),
        InstructionTypes::OUT => spec_step_out(s),
        InstructionTypes::EI => (
            CpuState { interrupts_enabled: true, ..s },
            PcUpdate::Sequential,
        ),
        InstructionTypes::DI => (
            CpuState { interrupts_enabled: false, ..s },
            PcUpdate::Sequential,
        ),
        InstructionTypes::INR => spec_step_inr(s),
        InstructionTypes::CP => spec_step_call(s, !s.flags.sign_flag),
        InstructionTypes::CNZ => spec_step_call(s, !s.flags.zero_flag),
        InstructionTypes::CC => spec_step_call(s, s.flags.carry_flag),
        InstructionTypes::CNC => spec_step_call(s, !s.flags.carry_flag),
        InstructionTypes::CPO => spec_step_call(s, !s.flags.parity_flag),
        InstructionTypes::CPE => spec_step_call(s, s.flags.parity_flag),
        InstructionTypes::CM => spec_step_call(s, s.flags.sign_flag),
        InstructionTypes::CZ => spec_step_call(s, s.flags.zero_flag),
        InstructionTypes::RC => spec_step_ret(s, s.flags.carry_flag),
        InstructionTypes::RNC => spec_step_ret(s, !s.flags.carry_flag),
        InstructionTypes::RZ => spec_step_ret(s, s.flags.zero_flag),
        InstructionTypes::RNZ => spec_step_ret(s, !s.flags.zero_flag),
        InstructionTypes::RM => spec_step_ret(s, s.flags.sign_flag),
        InstructionTypes::RP => spec_step_ret(s, !s.flags.sign_flag),
        InstructionTypes::RPE => spec_step_ret(s, s.flags.parity_flag),
        InstructionTypes::RPO => spec_step_ret(s, !s.flags.parity_flag),
        InstructionTypes::LHLD => spec_step_lhld(s),
        InstructionTypes::SHLD => spec_step_shld(s),
        InstructionTypes::STAX => spec_step_stax(s),
        InstructionTypes::STC => (
            CpuState { flags: StatusFlags { carry_flag: true, ..s.flags }, ..s },
            PcUpdate::Sequential,
        ),
        InstructionTypes::CMC => (
            CpuState {
                flags: StatusFlags { carry_flag: !s.flags.carry_flag, ..s.flags },
                ..s
            },
            PcUpdate::Sequential,
        ),
        InstructionTypes::CMA => (
            CpuState {
                registers: Registers { accumulator: !s.registers.accumulator, ..s.registers },
                ..s
            },
            PcUpdate::Sequential,
        ),
        InstructionTypes::DAA => spec_step_daa(s),
        InstructionTypes::SPHL => spec_step_sphl(s),
        InstructionTypes::XTHL => spec_step_xthl(s),
        InstructionTypes::PCHL => spec_step_pchl(s),
        InstructionTypes::RST => spec_step_rst(s),
        InstructionTypes::Unknown => (s, PcUpdate::Sequential),
    }
}

/// One full clock step: fetch the opcode byte at the program counter and
/// the two bytes after it, decode, and either fail on an unrecognized
/// opcode, execute and advance to the handler's explicit target, or execute
/// and advance by the instruction's length — halting, with the effects
/// applied and the program counter unchanged, when that advance would leave
/// the address space.
pub open spec fn spec_step(s: CpuState) -> (CpuState, ClockOutcome) {
    let b = spec_mem(s, s.program_counter);
    let lsb = spec_mem(s, wrap16(s.program_counter as int + 1));
    let msb = spec_mem(s, wrap16(s.program_counter as int + 2));
    let inst = spec_decode(b, lsb, msb);
    let s1 = CpuState { current_op: inst, ..s };
    if inst.instruction_type == InstructionTypes::Unknown {
        (s1, ClockOutcome::IllegalOpcode { opcode: b, at: s.program_counter })
    } else {
        let r = spec_exec_op(s1);
        match r.1 {
            PcUpdate::Jump(t) => (CpuState { program_counter: t, ..r.0 }, ClockOutcome::Stepped),
            PcUpdate::Sequential => {
                let len = spec_len_of_mode(inst.address_mode);
                if s.program_counter + len < 0x10000 {
                    (
                        CpuState { program_counter: (s.program_counter + len) as u16, ..r.0 },
                        ClockOutcome::Stepped,
                    )
                } else {
                    (r.0, ClockOutcome::Halted)
                }
            },
        }
    }
}

/// The instruction decoded from the byte at an address and the two bytes
/// after it.
pub open spec fn spec_inst_at(s: CpuState, addr: u16) -> Instruction {
    spec_decode(
        spec_mem(s, addr),
        spec_mem(s, wrap16(addr as int + 1)),
        spec_mem(s, wrap16(addr as int + 2)),
    )
}

/// Address of the k-th instruction in a straight-line disassembly starting
/// at `start`: each instruction is followed by the next at its own length,
/// wrapping around the address space.
pub open spec fn spec_disasm_addr(s: CpuState, start: u16, k: nat) -> u16
    decreases k,
{
    if k == 0 {
        start
    } else {
        let prev = spec_disasm_addr(s, start, (k - 1) as nat);
        wrap16(prev + spec_len_of_mode(spec_inst_at(s, prev).address_mode))
    }
}

/// The architectural state after construction or reset: all registers and
/// flags clear, the program counter at zero, the stack pointer at its fixed
/// default, no instruction decoded yet, and the given memory contents.
pub open spec fn spec_reset_state(mem: Seq<u8>) -> CpuState {
    CpuState {
        registers: Registers { accumulator: 0, b: 0, c: 0, d: 0, e: 0, h: 0, l: 0 },
        flags: StatusFlags {
            carry_flag: false,
            auxiliary_flag: false,
            sign_flag: false,
            zero_flag: false,
            parity_flag: false,
        },
        program_counter: 0,
        stack_pointer: 0x20,
        memory: mem,
        current_op: Instruction {
            machine_code: 0,
            immediate_lsb: 0,
            immediate_msb: 0,
            address_mode: AddressMode::Unknown,
            instruction_type: InstructionTypes::Unknown,
            low_nibble: None,
            high_nibble: None,
        },
        out: 0,
        interrupts_enabled: false,
    }
}

/// A decoded instruction is internally consistent: it is exactly what its
/// own stored bytes decode to.
pub open spec fn spec_op_wf(i: Instruction) -> bool {
    i == spec_decode(i.machine_code, i.immediate_lsb, i.immediate_msb)
}

} // verus!

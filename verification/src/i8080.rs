pub mod flags;
pub mod instructions;
pub mod laws;
pub mod registers;
pub mod state;

use vstd::prelude::*;

use crate::i8080::flags::{parity, sign, zero, StatusFlags};
use crate::i8080::instructions::{spec_decode, Instruction, InstructionTypes};
use crate::i8080::registers::Registers;
use crate::i8080::state::{spec_bd_addr, spec_direct_addr, spec_disasm_addr, spec_exec_op,
    spec_flags_cszp, spec_get_pair, spec_get_reg, spec_imm, spec_inst_at,
    spec_inv, spec_mem, spec_op_wf, spec_pair16, spec_reset_state,
    spec_set_pair, spec_set_reg, spec_step, spec_step_add, spec_step_call, spec_step_cmp,
    spec_step_daa, spec_step_dad, spec_step_dcr, spec_step_dcx, spec_step_inr, spec_step_inx,
    spec_step_jump, spec_step_lda, spec_step_ldax, spec_step_lhld, spec_step_lxi, spec_step_mov,
    spec_step_mvi, spec_step_pop, spec_step_push, spec_step_ral, spec_step_rar, spec_step_ret,
    spec_step_rlc, spec_step_rrc, spec_step_rst, spec_step_sta, spec_step_stax, spec_step_shld,
    spec_step_sub, spec_step_and, spec_step_or, spec_step_out, spec_step_pchl, spec_step_sphl,
    spec_step_xor, spec_step_xchg, spec_step_xthl, wrap16,
    ClockOutcome, CpuState, MEMORY_SIZE, PcUpdate};

verus! {

/// The simulated processor: the architectural registers and flags, the
/// 16-bit program counter and stack pointer, the flat memory covering the
/// whole 16-bit address space, the most recently decoded instruction, the
/// write-only output latch, and the interrupt-enable flag.
pub struct Processor {
    stack_pointer: u16,
    program_counter: u16,
    memory: Vec<u8>,
    registers: Registers,
    flags: StatusFlags,
    current_op: Instruction,
    out: u8,
    interrupts_enabled: bool,
}

impl View for Processor {
    type V = CpuState;

    closed spec fn view(&self) -> CpuState {
        CpuState {
            registers: self.registers,
            flags: self.flags,
            program_counter: self.program_counter,
            stack_pointer: self.stack_pointer,
            memory: self.memory@,
            current_op: self.current_op,
            out: self.out,
            interrupts_enabled: self.interrupts_enabled,
        }
    }
}

/// A 16-bit value from a high and a low byte.
fn pair16(msb: u8, lsb: u8) -> (r: u16)
    ensures
        r == spec_pair16(msb, lsb),
{
    (msb as u16) * 256 + (lsb as u16)
}

/// Addition that wraps around the 16-bit address space.
fn wrap_add(a: u16, b: u16) -> (r: u16)
    ensures
        r == wrap16(a + b),
{
    (((a as u32) + (b as u32)) % 0x10000) as u16
}

impl Processor {
    /// Build a processor with the given image loaded at address zero, the
    /// rest of memory cleared, and every architectural register at its
    /// default. The image cannot exceed the 16-bit address space.
    pub fn from_bytes(bytes: Vec<u8>) -> (p: Processor)
        requires
            bytes@.len() <= MEMORY_SIZE,
        ensures
            p@ == spec_reset_state(p@.memory),
            p@.memory.len() == MEMORY_SIZE,
            forall|i: int| 0 <= i < bytes@.len() ==> p@.memory[i] == bytes@[i],
            forall|i: int| bytes@.len() <= i < MEMORY_SIZE ==> p@.memory[i] == 0,
    {
        let mut memory: Vec<u8> = Vec::new();
        let mut i: usize = 0;
        while i < MEMORY_SIZE
            invariant
                memory@.len() == i,
                i <= MEMORY_SIZE,
                forall|j: int| 0 <= j < i ==> memory@[j] == 0,
            decreases MEMORY_SIZE - i,
        {
            memory.push(0);
            i = i + 1;
        }
        let mut i: usize = 0;
        while i < bytes.len()
            invariant
                bytes@.len() <= MEMORY_SIZE,
                memory@.len() == MEMORY_SIZE,
                i <= bytes@.len(),
                forall|j: int| 0 <= j < i ==> memory@[j] == bytes@[j],
                forall|j: int| i <= j < MEMORY_SIZE ==> memory@[j] == 0,
            decreases bytes@.len() - i,
        {
            let b = bytes[i];
            memory.set(i, b);
            i = i + 1;
        }
        Processor {
            stack_pointer: 0x20,
            program_counter: 0,
            memory,
            flags: StatusFlags::new(),
            current_op: Instruction::new(),
            registers: Registers::new(),
            out: 0,
            interrupts_enabled: false,
        }
    }

    /// Restore every architectural register, the flags, the program
    /// counter, the stack pointer, the output latch and the
    /// interrupt-enable flag to their defaults; memory is untouched.
    pub fn reset(&mut self)
        ensures
            final(self)@ == spec_reset_state(old(self)@.memory),
    {
        self.stack_pointer = 0x20;
        self.program_counter = 0;
        self.flags = StatusFlags::new();
        self.current_op = Instruction::new();
        self.registers = Registers::new();
        self.out = 0;
        self.interrupts_enabled = false;
    }

    /// Move the program counter back to address zero; nothing else changes.
    pub fn reset_pc(&mut self)
        ensures
            final(self)@ == (CpuState { program_counter: 0, ..old(self)@ }),
    {
        self.program_counter = 0;
    }

    /// Snapshot of the status flags.
    pub fn get_flags(&self) -> (f: StatusFlags)
        ensures
            f == self@.flags,
    {
        self.flags
    }

    /// Snapshot of the registers.
    pub fn get_registers(&self) -> (r: Registers)
        ensures
            r == self@.registers,
    {
        self.registers
    }

    /// The current program counter.
    pub fn get_pc(&self) -> (pc: u16)
        ensures
            pc == self@.program_counter,
    {
        self.program_counter
    }

    /// The most recently decoded instruction.
    pub fn get_current_op(&self) -> (op: Instruction)
        ensures
            op == self@.current_op,
    {
        self.current_op
    }

    /// The current stack pointer.
    pub fn get_stack_pointer(&self) -> (sp: u16)
        ensures
            sp == self@.stack_pointer,
    {
        self.stack_pointer
    }

    /// The output latch, the byte most recently written by OUT.
    pub fn get_out(&self) -> (o: u8)
        ensures
            o == self@.out,
    {
        self.out
    }

    /// Replace all seven registers at once.
    pub fn set_all_registers(&mut self, reg: Registers)
        ensures
            final(self)@ == (CpuState { registers: reg, ..old(self)@ }),
    {
        self.registers = reg;
    }

    /// A copy of the full memory contents.
    pub fn get_memory(&self) -> (m: Vec<u8>)
        ensures
            m@ == self@.memory,
    {
        let mut m: Vec<u8> = Vec::new();
        let mut i: usize = 0;
        while i < self.memory.len()
            invariant
                m@.len() == i,
                i <= self.memory@.len(),
                forall|j: int| 0 <= j < i ==> m@[j] == self.memory@[j],
            decreases self.memory@.len() - i,
        {
            let b = self.memory[i];
            m.push(b);
            i = i + 1;
        }
        proof {
            assert(m@ =~= self@.memory);
        }
        m
    }

    /// The memory byte at an address.
    pub fn get_memory_at(&self, addr: u16) -> (v: u8)
        requires
            spec_inv(self@),
        ensures
            v == spec_mem(self@, addr),
    {
        self.memory[addr as usize]
    }

    /// Overwrite the memory byte at an address.
    pub fn set_memory_at(&mut self, addr: u16, val: u8)
        requires
            spec_inv(old(self)@),
        ensures
            final(self)@ == (CpuState {
                memory: old(self)@.memory.update(addr as int, val),
                ..old(self)@
            }),
    {
        self.memory.set(addr as usize, val);
    }

    /// The byte immediately after the opcode at the program counter.
    pub fn get_immediate(&self) -> (v: u8)
        requires
            spec_inv(self@),
        ensures
            v == spec_imm(self@),
    {
        let addr = wrap_add(self.program_counter, 1);
        self.get_memory_at(addr)
    }

    /// The little-endian address held in the two bytes after the opcode at
    /// the program counter.
    pub fn get_direct_address(&self) -> (addr: u16)
        requires
            spec_inv(self@),
        ensures
            addr == spec_direct_addr(self@),
    {
        let a1 = wrap_add(self.program_counter, 1);
        let a2 = wrap_add(self.program_counter, 2);
        let lsb_value = self.get_memory_at(a1);
        let msb_value = self.get_memory_at(a2);
        pair16(msb_value, lsb_value)
    }

    /// Set carry and auxiliary carry as given and recompute zero, sign and
    /// parity from the result byte.
    pub fn set_flags_cszp(&mut self, carry: bool, auxiliary_flag: bool, res: u8)
        ensures
            final(self)@ == (CpuState {
                flags: spec_flags_cszp(carry, auxiliary_flag, res),
                ..old(self)@
            }),
    {
        self.flags.auxiliary_flag = auxiliary_flag;
        self.flags.carry_flag = carry;
        self.flags.parity_flag = parity(res);
        self.flags.sign_flag = sign(res);
        self.flags.zero_flag = zero(res);
    }

    /// Read through a three-bit register selector: a named register, or the
    /// HL-addressed memory byte for selector 6.
    fn get_reg(&self, reg: u8) -> (v: u8)
        requires
            spec_inv(self@),
        ensures
            v == spec_get_reg(self@, reg),
    {
        let c = reg % 8;
        if c == 0 {
            self.registers.b
        } else if c == 1 {
            self.registers.c
        } else if c == 2 {
            self.registers.d
        } else if c == 3 {
            self.registers.e
        } else if c == 4 {
            self.registers.h
        } else if c == 5 {
            self.registers.l
        } else if c == 6 {
            let addr = pair16(self.registers.h, self.registers.l);
            self.get_memory_at(addr)
        } else {
            self.registers.accumulator
        }
    }

    /// Write through a three-bit register selector.
    fn set_reg(&mut self, register: u8, value: u8)
        requires
            spec_inv(old(self)@),
        ensures
            final(self)@ == spec_set_reg(old(self)@, register, value),
    {
        let c = register % 8;
        if c == 0 {
            self.registers.b = value;
        } else if c == 1 {
            self.registers.c = value;
        } else if c == 2 {
            self.registers.d = value;
        } else if c == 3 {
            self.registers.e = value;
        } else if c == 4 {
            self.registers.h = value;
        } else if c == 5 {
            self.registers.l = value;
        } else if c == 6 {
            let addr = pair16(self.registers.h, self.registers.l);
            self.set_memory_at(addr, value);
        } else {
            self.registers.accumulator = value;
        }
    }

    /// Read a register pair as (high byte, low byte); selector 3 reads the
    /// stack pointer. PUSH and POP never come here for selector 3: they
    /// resolve it to the program status word through their own path.
    fn get_reg_pair(&self, reg: u8) -> (p: (u8, u8))
        ensures
            p == spec_get_pair(self@, reg),
    {
        let c = reg % 4;
        if c == 0 {
            (self.registers.b, self.registers.c)
        } else if c == 1 {
            (self.registers.d, self.registers.e)
        } else if c == 2 {
            (self.registers.h, self.registers.l)
        } else {
            ((self.stack_pointer / 256) as u8, (self.stack_pointer % 256) as u8)
        }
    }

    /// Write a register pair from a high and a low byte; selector 3 writes
    /// the stack pointer.
    fn set_reg_pair(&mut self, reg: u8, msb: u8, lsb: u8)
        ensures
            final(self)@ == spec_set_pair(old(self)@, reg, msb, lsb),
    {
        let c = reg % 4;
        if c == 0 {
            self.registers.b = msb;
            self.registers.c = lsb;
        } else if c == 1 {
            self.registers.d = msb;
            self.registers.e = lsb;
        } else if c == 2 {
            self.registers.h = msb;
            self.registers.l = lsb;
        } else {
            self.stack_pointer = pair16(msb, lsb);
        }
    }

    /// Fetch the byte at the program counter and the two bytes after it,
    /// and decode them into the current instruction.
    pub fn fetch_instruction(&mut self)
        requires
            spec_inv(old(self)@),
        ensures
            final(self)@ == (CpuState {
                current_op: spec_decode(
                    spec_mem(old(self)@, old(self)@.program_counter),
                    spec_mem(old(self)@, wrap16(old(self)@.program_counter as int + 1)),
                    spec_mem(old(self)@, wrap16(old(self)@.program_counter as int + 2)),
                ),
                ..old(self)@
            }),
    {
        let b = self.get_memory_at(self.program_counter);
        let a1 = wrap_add(self.program_counter, 1);
        let a2 = wrap_add(self.program_counter, 2);
        let lsb = self.get_memory_at(a1);
        let msb = self.get_memory_at(a2);
        self.current_op.byte_to_op(b, lsb, msb);
    }

    /// Decode, without executing, a run of instructions starting at the
    /// current program counter, following each instruction's length; for
    /// disassembly display. Processor state is untouched.
    pub fn get_instructions(&self, count: usize) -> (r: Vec<Instruction>)
        requires
            spec_inv(self@),
        ensures
            r@.len() == count,
            forall|k: int|
                0 <= k < count ==> r@[k] == spec_inst_at(
                    self@,
                    spec_disasm_addr(self@, self@.program_counter, k as nat),
                ),
    {
        let mut r: Vec<Instruction> = Vec::new();
        let mut addr = self.program_counter;
        let mut k: usize = 0;
        while k < count
            invariant
                spec_inv(self@),
                r@.len() == k,
                k <= count,
                addr == spec_disasm_addr(self@, self@.program_counter, k as nat),
                forall|j: int|
                    0 <= j < k ==> r@[j] == spec_inst_at(
                        self@,
                        spec_disasm_addr(self@, self@.program_counter, j as nat),
                    ),
            decreases count - k,
        {
            let b = self.get_memory_at(addr);
            let a1 = wrap_add(addr, 1);
            let a2 = wrap_add(addr, 2);
            let lsb = self.get_memory_at(a1);
            let msb = self.get_memory_at(a2);
            let mut inst = Instruction::new();
            inst.byte_to_op(b, lsb, msb);
            let len = inst.get_length();
            r.push(inst);
            addr = wrap_add(addr, len as u16);
            k = k + 1;
        }
        r
    }

    /// MOV: copy between registers or the HL-addressed byte.
    fn mov_op(&mut self) -> (u: PcUpdate)
        requires
            spec_inv(old(self)@),
            old(self)@.current_op.low_nibble.is_some(),
            old(self)@.current_op.high_nibble.is_some(),
        ensures
            (final(self)@, u) == spec_step_mov(old(self)@),
    {
        let to = self.current_op.low_nibble.unwrap();
        let from = self.current_op.high_nibble.unwrap();
        let val = self.get_reg(from);
        self.set_reg(to, val);
        PcUpdate::Sequential
    }

    /// ADD, ADC, ADI, ACI: add the operand, and for the with-carry forms
    /// the incoming carry, into the accumulator.
    fn add_op(&mut self, with_carry: bool, imm: bool) -> (u: PcUpdate)
        requires
            spec_inv(old(self)@),
            !imm ==> old(self)@.current_op.low_nibble.is_some(),
        ensures
            (final(self)@, u) == spec_step_add(old(self)@, with_carry, imm),
    {
        let a = self.registers.accumulator;
        let b = if imm {
            self.get_immediate()
        } else {
            self.get_reg(self.current_op.low_nibble.unwrap())
        };
        let cin: u16 = if with_carry && self.flags.carry_flag {
            1
        } else {
            0
        };
        let total: u16 = a as u16 + b as u16 + cin;
        let res = (total % 256) as u8;
        let aux = a % 16 + b % 16 > 15;
        self.set_flags_cszp(total > 255, aux, res);
        self.registers.accumulator = res;
        PcUpdate::Sequential
    }

    /// SUB, SBB, SUI, SBI: subtract the operand, and for the with-borrow
    /// forms the incoming carry, from the accumulator.
    fn sub_op(&mut self, with_carry: bool, imm: bool) -> (u: PcUpdate)
        requires
            spec_inv(old(self)@),
            !imm ==> old(self)@.current_op.low_nibble.is_some(),
        ensures
            (final(self)@, u) == spec_step_sub(old(self)@, with_carry, imm),
    {
        let a = self.registers.accumulator;
        let b = if imm {
            self.get_immediate()
        } else {
            self.get_reg(self.current_op.low_nibble.unwrap())
        };
        let cin: u16 = if with_carry && self.flags.carry_flag {
            1
        } else {
            0
        };
        let rhs: u16 = b as u16 + cin;
        let res = ((a as u16 + 512 - rhs) % 256) as u8;
        let aux = a % 16 < b % 16;
        self.set_flags_cszp((a as u16) < rhs, aux, res);
        self.registers.accumulator = res;
        PcUpdate::Sequential
    }

    /// CMP and CPI: the subtraction's flags, with the result discarded.
    fn cmp_op(&mut self, imm: bool) -> (u: PcUpdate)
        requires
            spec_inv(old(self)@),
            !imm ==> old(self)@.current_op.low_nibble.is_some(),
        ensures
            (final(self)@, u) == spec_step_cmp(old(self)@, imm),
    {
        let a = self.registers.accumulator;
        let b = if imm {
            self.get_immediate()
        } else {
            self.get_reg(self.current_op.low_nibble.unwrap())
        };
        let res = ((a as u16 + 512 - b as u16) % 256) as u8;
        let aux = a % 16 < b % 16;
        self.set_flags_cszp((a as u16) < (b as u16), aux, res);
        PcUpdate::Sequential
    }

    /// ANA and ANI: bitwise and into the accumulator.
    fn ana_op(&mut self, imm: bool) -> (u: PcUpdate)
        requires
            spec_inv(old(self)@),
            !imm ==> old(self)@.current_op.low_nibble.is_some(),
        ensures
            (final(self)@, u) == spec_step_and(old(self)@, imm),
    {
        let a = self.registers.accumulator;
        let b = if imm {
            self.get_immediate()
        } else {
            self.get_reg(self.current_op.low_nibble.unwrap())
        };
        let res = a & b;
        self.set_flags_cszp(false, false, res);
        self.registers.accumulator = res;
        PcUpdate::Sequential
    }

    /// ORA and ORI: bitwise or into the accumulator.
    fn ora_op(&mut self, imm: bool) -> (u: PcUpdate)
        requires
            spec_inv(old(self)@),
            !imm ==> old(self)@.current_op.low_nibble.is_some(),
        ensures
            (final(self)@, u) == spec_step_or(old(self)@, imm),
    {
        let a = self.registers.accumulator;
        let b = if imm {
            self.get_immediate()
        } else {
            self.get_reg(self.current_op.low_nibble.unwrap())
        };
        let res = a | b;
        self.set_flags_cszp(false, false, res);
        self.registers.accumulator = res;
        PcUpdate::Sequential
    }

    /// XRA and XRI: bitwise exclusive or into the accumulator.
    fn xra_op(&mut self, imm: bool) -> (u: PcUpdate)
        requires
            spec_inv(old(self)@),
            !imm ==> old(self)@.current_op.low_nibble.is_some(),
        ensures
            (final(self)@, u) == spec_step_xor(old(self)@, imm),
    {
        let a = self.registers.accumulator;
        let b = if imm {
            self.get_immediate()
        } else {
            self.get_reg(self.current_op.low_nibble.unwrap())
        };
        let res = a ^ b;
        self.set_flags_cszp(false, false, res);
        self.registers.accumulator = res;
        PcUpdate::Sequential
    }

    /// MVI: load the trailing immediate byte into the selected place.
    fn mvi_op(&mut self) -> (u: PcUpdate)
        requires
            spec_inv(old(self)@),
            old(self)@.current_op.low_nibble.is_some(),
        ensures
            (final(self)@, u) == spec_step_mvi(old(self)@),
    {
        let v = self.get_immediate();
        let code = self.current_op.low_nibble.unwrap();
        self.set_reg(code, v);
        PcUpdate::Sequential
    }

    /// LXI: load the two trailing bytes into the selected pair.
    fn lxi_op(&mut self) -> (u: PcUpdate)
        requires
            spec_inv(old(self)@),
            old(self)@.current_op.low_nibble.is_some(),
        ensures
            (final(self)@, u) == spec_step_lxi(old(self)@),
    {
        let a1 = wrap_add(self.program_counter, 1);
        let a2 = wrap_add(self.program_counter, 2);
        let lsb_value = self.get_memory_at(a1);
        let msb_value = self.get_memory_at(a2);
        let code = self.current_op.low_nibble.unwrap();
        self.set_reg_pair(code, msb_value, lsb_value);
        PcUpdate::Sequential
    }

    /// DAD: add the selected pair into HL, updating only carry.
    fn dad_op(&mut self) -> (u: PcUpdate)
        requires
            spec_inv(old(self)@),
            old(self)@.current_op.low_nibble.is_some(),
        ensures
            (final(self)@, u) == spec_step_dad(old(self)@),
    {
        let code = self.current_op.low_nibble.unwrap();
        let p = self.get_reg_pair(code);
        let num1 = pair16(p.0, p.1);
        let num2 = pair16(self.registers.h, self.registers.l);
        let total: u32 = num1 as u32 + num2 as u32;
        let res = (total % 0x10000) as u16;
        self.registers.h = (res / 256) as u8;
        self.registers.l = (res % 256) as u8;
        self.flags.carry_flag = total > 0xFFFF;
        PcUpdate::Sequential
    }

    /// INX: step the selected pair up by one, wrapping.
    fn inx_op(&mut self) -> (u: PcUpdate)
        requires
            spec_inv(old(self)@),
            old(self)@.current_op.low_nibble.is_some(),
        ensures
            (final(self)@, u) == spec_step_inx(old(self)@),
    {
        let code = self.current_op.low_nibble.unwrap();
        let p = self.get_reg_pair(code);
        let res = wrap_add(pair16(p.0, p.1), 1);
        self.set_reg_pair(code, (res / 256) as u8, (res % 256) as u8);
        PcUpdate::Sequential
    }

    /// DCX: step the selected pair down by one, wrapping.
    fn dcx_op(&mut self) -> (u: PcUpdate)
        requires
            spec_inv(old(self)@),
            old(self)@.current_op.low_nibble.is_some(),
        ensures
            (final(self)@, u) == spec_step_dcx(old(self)@),
    {
        let code = self.current_op.low_nibble.unwrap();
        let p = self.get_reg_pair(code);
        let res = wrap_add(pair16(p.0, p.1), 0xFFFF);
        self.set_reg_pair(code, (res / 256) as u8, (res % 256) as u8);
        PcUpdate::Sequential
    }

    /// INR: step a register or the HL-addressed byte up by one; carry is
    /// untouched.
    fn inr_op(&mut self) -> (u: PcUpdate)
        requires
            spec_inv(old(self)@),
            old(self)@.current_op.low_nibble.is_some(),
        ensures
            (final(self)@, u) == spec_step_inr(old(self)@),
    {
        let code = self.current_op.low_nibble.unwrap();
        let v = self.get_reg(code);
        let res = ((v as u16 + 1) % 256) as u8;
        self.flags.auxiliary_flag = v % 16 == 15;
        self.flags.parity_flag = parity(res);
        self.flags.sign_flag = sign(res);
        self.flags.zero_flag = zero(res);
        self.set_reg(code, res);
        PcUpdate::Sequential
    }

    /// DCR: step a register or the HL-addressed byte down by one; carry is
    /// untouched.
    fn dcr_op(&mut self) -> (u: PcUpdate)
        requires
            spec_inv(old(self)@),
            old(self)@.current_op.low_nibble.is_some(),
        ensures
            (final(self)@, u) == spec_step_dcr(old(self)@),
    {
        let code = self.current_op.low_nibble.unwrap();
        let v = self.get_reg(code);
        let res = ((v as u16 + 255) % 256) as u8;
        self.flags.auxiliary_flag = v % 16 == 0;
        self.flags.parity_flag = parity(res);
        self.flags.sign_flag = sign(res);
        self.flags.zero_flag = zero(res);
        self.set_reg(code, res);
        PcUpdate::Sequential
    }

    /// RLC: rotate the accumulator left into carry.
    fn rlc_op(&mut self) -> (u: PcUpdate)
        ensures
            (final(self)@, u) == spec_step_rlc(old(self)@),
    {
        let a = self.registers.accumulator;
        let res = (a % 128) * 2 + a / 128;
        self.flags.carry_flag = res % 2 == 1;
        self.registers.accumulator = res;
        PcUpdate::Sequential
    }

    /// RRC: rotate the accumulator right into carry.
    fn rrc_op(&mut self) -> (u: PcUpdate)
        ensures
            (final(self)@, u) == spec_step_rrc(old(self)@),
    {
        let a = self.registers.accumulator;
        let res = a / 2 + (a % 2) * 128;
        self.flags.carry_flag = res >= 0x80;
        self.registers.accumulator = res;
        PcUpdate::Sequential
    }

    /// RAL: rotate left through the carry flag.
    fn ral_op(&mut self) -> (u: PcUpdate)
        ensures
            (final(self)@, u) == spec_step_ral(old(self)@),
    {
        let a = self.registers.accumulator;
        let cin: u8 = if self.flags.carry_flag {
            1
        } else {
            0
        };
        let res = (a % 128) * 2 + cin;
        self.flags.carry_flag = a >= 0x80;
        self.registers.accumulator = res;
        PcUpdate::Sequential
    }

    /// RAR: rotate right through the carry flag.
    fn rar_op(&mut self) -> (u: PcUpdate)
        ensures
            (final(self)@, u) == spec_step_rar(old(self)@),
    {
        let a = self.registers.accumulator;
        let cin: u8 = if self.flags.carry_flag {
            1
        } else {
            0
        };
        let res = a / 2 + cin * 128;
        self.flags.carry_flag = a % 2 == 1;
        self.registers.accumulator = res;
        PcUpdate::Sequential
    }

    /// LDA: load the accumulator from the direct address.
    fn lda_op(&mut self) -> (u: PcUpdate)
        requires
            spec_inv(old(self)@),
        ensures
            (final(self)@, u) == spec_step_lda(old(self)@),
    {
        let addr = self.get_direct_address();
        let v = self.get_memory_at(addr);
        self.registers.accumulator = v;
        PcUpdate::Sequential
    }

    /// STA: store the accumulator at the direct address.
    fn sta_op(&mut self) -> (u: PcUpdate)
        requires
            spec_inv(old(self)@),
        ensures
            (final(self)@, u) == spec_step_sta(old(self)@),
    {
        let addr = self.get_direct_address();
        let v = self.registers.accumulator;
        self.set_memory_at(addr, v);
        PcUpdate::Sequential
    }

    /// The address LDAX and STAX use: DE when opcode bit 4 is set, else BC.
    fn bd_addr(&self) -> (addr: u16)
        ensures
            addr == spec_bd_addr(self@),
    {
        if (self.current_op.machine_code / 16) % 2 == 1 {
            pair16(self.registers.d, self.registers.e)
        } else {
            pair16(self.registers.b, self.registers.c)
        }
    }

    /// LDAX: load the accumulator through the BC or DE pair.
    fn ldax_op(&mut self) -> (u: PcUpdate)
        requires
            spec_inv(old(self)@),
        ensures
            (final(self)@, u) == spec_step_ldax(old(self)@),
    {
        let addr = self.bd_addr();
        let v = self.get_memory_at(addr);
        self.registers.accumulator = v;
        PcUpdate::Sequential
    }

    /// STAX: store the accumulator through the BC or DE pair.
    fn stax_op(&mut self) -> (u: PcUpdate)
        requires
            spec_inv(old(self)@),
        ensures
            (final(self)@, u) == spec_step_stax(old(self)@),
    {
        let addr = self.bd_addr();
        let v = self.registers.accumulator;
        self.set_memory_at(addr, v);
        PcUpdate::Sequential
    }

    /// LHLD: load L and H from the direct address and the byte after it.
    fn lhld_op(&mut self) -> (u: PcUpdate)
        requires
            spec_inv(old(self)@),
        ensures
            (final(self)@, u) == spec_step_lhld(old(self)@),
    {
        let addr = self.get_direct_address();
        let a1 = wrap_add(addr, 1);
        let l_value = self.get_memory_at(addr);
        let h_value = self.get_memory_at(a1);
        self.registers.l = l_value;
        self.registers.h = h_value;
        PcUpdate::Sequential
    }

    /// SHLD: store L and H at the direct address and the byte after it.
    fn shld_op(&mut self) -> (u: PcUpdate)
        requires
            spec_inv(old(self)@),
        ensures
            (final(self)@, u) == spec_step_shld(old(self)@),
    {
        let addr = self.get_direct_address();
        let a1 = wrap_add(addr, 1);
        let l_value = self.registers.l;
        let h_value = self.registers.h;
        self.set_memory_at(addr, l_value);
        self.set_memory_at(a1, h_value);
        PcUpdate::Sequential
    }

    /// PUSH: store the selected pair — the program status word for
    /// selector 3 — below the stack pointer and move it down by two.
    fn push_op(&mut self) -> (u: PcUpdate)
        requires
            spec_inv(old(self)@),
            old(self)@.current_op.low_nibble.is_some(),
        ensures
            (final(self)@, u) == spec_step_push(old(self)@),
    {
        let code = self.current_op.low_nibble.unwrap();
        let (msb, lsb) = if code % 4 == 3 {
            (self.flags.get_flags_u8(), self.registers.accumulator)
        } else {
            self.get_reg_pair(code)
        };
        let a1 = wrap_add(self.stack_pointer, 0xFFFF);
        let a2 = wrap_add(self.stack_pointer, 0xFFFE);
        self.set_memory_at(a1, msb);
        self.set_memory_at(a2, lsb);
        self.stack_pointer = a2;
        PcUpdate::Sequential
    }

    /// POP: read the pair at the stack top, move the stack pointer up by
    /// two, and write it back — the program status word for selector 3.
    fn pop_op(&mut self) -> (u: PcUpdate)
        requires
            spec_inv(old(self)@),
            old(self)@.current_op.low_nibble.is_some(),
        ensures
            (final(self)@, u) == spec_step_pop(old(self)@),
    {
        let code = self.current_op.low_nibble.unwrap();
        let a1 = wrap_add(self.stack_pointer, 1);
        let lsb = self.get_memory_at(self.stack_pointer);
        let msb = self.get_memory_at(a1);
        self.stack_pointer = wrap_add(self.stack_pointer, 2);
        if code % 4 == 3 {
            self.flags.set_flags_u8(msb);
            self.registers.accumulator = lsb;
        } else {
            self.set_reg_pair(code, msb, lsb);
        }
        PcUpdate::Sequential
    }

    /// Shared body of the jump family: continue at the direct address when
    /// the condition holds, else fall through.
    fn jump_cond(&mut self, take: bool) -> (u: PcUpdate)
        requires
            spec_inv(old(self)@),
        ensures
            (final(self)@, u) == spec_step_jump(old(self)@, take),
    {
        if take {
            PcUpdate::Jump(self.get_direct_address())
        } else {
            PcUpdate::Sequential
        }
    }

    /// Shared body of the call family: push the return address and continue
    /// at the direct address when the condition holds, else fall through.
    fn call_cond(&mut self, take: bool) -> (u: PcUpdate)
        requires
            spec_inv(old(self)@),
        ensures
            (final(self)@, u) == spec_step_call(old(self)@, take),
    {
        if take {
            let target = self.get_direct_address();
            let ret = wrap_add(self.program_counter, 3);
            let a1 = wrap_add(self.stack_pointer, 0xFFFF);
            let a2 = wrap_add(self.stack_pointer, 0xFFFE);
            self.set_memory_at(a1, (ret / 256) as u8);
            self.set_memory_at(a2, (ret % 256) as u8);
            self.stack_pointer = a2;
            PcUpdate::Jump(target)
        } else {
            PcUpdate::Sequential
        }
    }

    /// Shared body of the return family: pop the return address and
    /// continue there when the condition holds, else fall through.
    fn ret_cond(&mut self, take: bool) -> (u: PcUpdate)
        requires
            spec_inv(old(self)@),
        ensures
            (final(self)@, u) == spec_step_ret(old(self)@, take),
    {
        if take {
            let a1 = wrap_add(self.stack_pointer, 1);
            let lsb = self.get_memory_at(self.stack_pointer);
            let msb = self.get_memory_at(a1);
            self.stack_pointer = wrap_add(self.stack_pointer, 2);
            PcUpdate::Jump(pair16(msb, lsb))
        } else {
            PcUpdate::Sequential
        }
    }

    /// RST: store the program counter's low nibbles on the stack and
    /// continue at the reset address held in opcode bits 5 to 3.
    fn rst_op(&mut self) -> (u: PcUpdate)
        requires
            spec_inv(old(self)@),
        ensures
            (final(self)@, u) == spec_step_rst(old(self)@),
    {
        let target = ((self.current_op.machine_code / 8) % 8) * 8;
        let b1 = (self.program_counter % 16) as u8;
        let b2 = ((self.program_counter / 256) % 16) as u8;
        let a1 = wrap_add(self.stack_pointer, 0xFFFF);
        let a2 = wrap_add(self.stack_pointer, 0xFFFE);
        self.set_memory_at(a1, b1);
        self.set_memory_at(a2, b2);
        self.stack_pointer = a2;
        PcUpdate::Jump(target as u16)
    }

    /// XCHG: swap the DE and HL pairs.
    fn xchg_op(&mut self) -> (u: PcUpdate)
        ensures
            (final(self)@, u) == spec_step_xchg(old(self)@),
    {
        let d = self.registers.d;
        let e = self.registers.e;
        self.registers.d = self.registers.h;
        self.registers.e = self.registers.l;
        self.registers.h = d;
        self.registers.l = e;
        PcUpdate::Sequential
    }

    /// XTHL: swap HL with the two bytes at the stack top.
    fn xthl_op(&mut self) -> (u: PcUpdate)
        requires
            spec_inv(old(self)@),
        ensures
            (final(self)@, u) == spec_step_xthl(old(self)@),
    {
        let a1 = wrap_add(self.stack_pointer, 1);
        let lsb = self.get_memory_at(self.stack_pointer);
        let msb = self.get_memory_at(a1);
        let l_value = self.registers.l;
        let h_value = self.registers.h;
        self.set_memory_at(self.stack_pointer, l_value);
        self.set_memory_at(a1, h_value);
        self.registers.l = lsb;
        self.registers.h = msb;
        PcUpdate::Sequential
    }

    /// SPHL: copy HL into the stack pointer.
    fn sphl_op(&mut self) -> (u: PcUpdate)
        ensures
            (final(self)@, u) == spec_step_sphl(old(self)@),
    {
        self.stack_pointer = pair16(self.registers.h, self.registers.l);
        PcUpdate::Sequential
    }

    /// PCHL: continue at the address held in HL.
    fn pchl_op(&mut self) -> (u: PcUpdate)
        ensures
            (final(self)@, u) == spec_step_pchl(old(self)@),
    {
        PcUpdate::Jump(pair16(self.registers.h, self.registers.l))
    }

    /// OUT: copy the accumulator into the output latch.
    fn out_op(&mut self) -> (u: PcUpdate)
        ensures
            (final(self)@, u) == spec_step_out(old(self)@),
    {
        self.out = self.registers.accumulator;
        PcUpdate::Sequential
    }

    /// DAA: binary-coded-decimal adjustment of the accumulator.
    fn daa_op(&mut self) -> (u: PcUpdate)
        ensures
            (final(self)@, u) == spec_step_daa(old(self)@),
    {
        let a0 = self.registers.accumulator;
        let low_adjust = a0 % 16 > 9 || self.flags.auxiliary_flag;
        let a1 = if low_adjust {
            ((a0 as u16 + 6) % 256) as u8
        } else {
            a0
        };
        if low_adjust && a1 % 16 < 9 {
            self.flags.auxiliary_flag = true;
        }
        let high_adjust = a1 / 16 > 9 || self.flags.carry_flag;
        if high_adjust {
            let with_high = a1 as u16 + 0x60;
            self.registers.accumulator = (with_high % 256) as u8;
            self.flags.carry_flag = with_high > 255;
        } else {
            self.registers.accumulator = a1;
        }
        PcUpdate::Sequential
    }

    /// Dispatch the current instruction to its handler and report the
    /// requested program-counter movement; the caller has already ruled the
    /// unrecognized kind out, which is a no-op here.
    fn execute_instruction(&mut self) -> (u: PcUpdate)
        requires
            spec_inv(old(self)@),
            spec_op_wf(old(self)@.current_op),
        ensures
            (final(self)@, u) == spec_exec_op(old(self)@),
    {
        match self.current_op.instruction_type {
            InstructionTypes::MOV => self.mov_op(),
            InstructionTypes::ADD => self.add_op(false, false),
            InstructionTypes::ADC => self.add_op(true, false),
            InstructionTypes::SUB => self.sub_op(false, false),
            InstructionTypes::SBB => self.sub_op(true, false),
            InstructionTypes::ANA => self.ana_op(false),
            InstructionTypes::XRA => self.xra_op(false),
            InstructionTypes::ORA => self.ora_op(false),
            InstructionTypes::CMP => self.cmp_op(false),
            InstructionTypes::MVI => self.mvi_op(),
            InstructionTypes::ADI => self.add_op(false, true),
            InstructionTypes::ACI => self.add_op(true, true),
            InstructionTypes::SUI => self.sub_op(false, true),
            InstructionTypes::SBI => self.sub_op(true, true),
            InstructionTypes::ANI => self.ana_op(true),
            InstructionTypes::ORI => self.ora_op(true),
            InstructionTypes::XRI => self.xra_op(true),
            InstructionTypes::CPI => self.cmp_op(true),
            InstructionTypes::JMP => self.jump_cond(true),
            InstructionTypes::JNZ => {
                let take = !self.flags.zero_flag;
                self.jump_cond(take)
            },
            InstructionTypes::JZ => {
                let take = self.flags.zero_flag;
                self.jump_cond(take)
            },
            InstructionTypes::JNC => {
                let take = !self.flags.carry_flag;
                self.jump_cond(take)
            },
            InstructionTypes::JC => {
                let take = self.flags.carry_flag;
                self.jump_cond(take)
            },
            InstructionTypes::JPO => {
                let take = !self.flags.parity_flag;
                self.jump_cond(take)
            },
            InstructionTypes::JPE => {
                let take = self.flags.parity_flag;
                self.jump_cond(take)
            },
            InstructionTypes::JP => {
                let take = !self.flags.sign_flag;
                self.jump_cond(take)
            },
            InstructionTypes::JM => {
                let take = self.flags.sign_flag;
                self.jump_cond(take)
            },
            InstructionTypes::LXI => self.lxi_op(),
            InstructionTypes::DCR => self.dcr_op(),
            InstructionTypes::DAD => self.dad_op(),
            InstructionTypes::RRC => self.rrc_op(),
            InstructionTypes::RLC => self.rlc_op(),
            InstructionTypes::RAL => self.ral_op(),
            InstructionTypes::RAR => self.rar_op(),
            InstructionTypes::INX => self.inx_op(),
            InstructionTypes::DCX => self.dcx_op(),
            InstructionTypes::LDA => self.lda_op(),
            InstructionTypes::LDAX => self.ldax_op(),
            InstructionTypes::STA => self.sta_op(),
            InstructionTypes::PUSH => self.push_op(),
            InstructionTypes::POP => self.pop_op(),
            InstructionTypes::CALL => self.call_cond(true),
            InstructionTypes::NOP => PcUpdate::Sequential,
            InstructionTypes::RET => self.ret_cond(true),
            InstructionTypes::XCHG => self.xchg_op(),
            InstructionTypes::OUT => self.out_op(),
            InstructionTypes::EI => {
                self.interrupts_enabled = true;
                PcUpdate::Sequential
            },
            InstructionTypes::DI => {
                self.interrupts_enabled = false;
                PcUpdate::Sequential
            },
            InstructionTypes::INR => self.inr_op(),
            InstructionTypes::CP => {
                let take = !self.flags.sign_flag;
                self.call_cond(take)
            },
            InstructionTypes::CNZ => {
                let take = !self.flags.zero_flag;
                self.call_cond(take)
            },
            InstructionTypes::CC => {
                let take = self.flags.carry_flag;
                self.call_cond(take)
            },
            InstructionTypes::CNC => {
                let take = !self.flags.carry_flag;
                self.call_cond(take)
            },
            InstructionTypes::CPO => {
                let take = !self.flags.parity_flag;
                self.call_cond(take)
            },
            InstructionTypes::CPE => {
                let take = self.flags.parity_flag;
                self.call_cond(take)
            },
            InstructionTypes::CM => {
                let take = self.flags.sign_flag;
                self.call_cond(take)
            },
            InstructionTypes::CZ => {
                let take = self.flags.zero_flag;
                self.call_cond(take)
            },
            InstructionTypes::RC => {
                let take = self.flags.carry_flag;
                self.ret_cond(take)
            },
            InstructionTypes::RNC => {
                let take = !self.flags.carry_flag;
                self.ret_cond(take)
            },
            InstructionTypes::RZ => {
                let take = self.flags.zero_flag;
                self.ret_cond(take)
            },
            InstructionTypes::RNZ => {
                let take = !self.flags.zero_flag;
                self.ret_cond(take)
            },
            InstructionTypes::RM => {
                let take = self.flags.sign_flag;
                self.ret_cond(take)
            },
            InstructionTypes::RP => {
                let take = !self.flags.sign_flag;
                self.ret_cond(take)
            },
            InstructionTypes::RPE => {
                let take = self.flags.parity_flag;
                self.ret_cond(take)
            },
            InstructionTypes::RPO => {
                let take = !self.flags.parity_flag;
                self.ret_cond(take)
            },
            InstructionTypes::LHLD => self.lhld_op(),
            InstructionTypes::SHLD => self.shld_op(),
            InstructionTypes::STAX => self.stax_op(),
            InstructionTypes::STC => {
                self.flags.carry_flag = true;
                PcUpdate::Sequential
            },
            InstructionTypes::CMC => {
                self.flags.carry_flag = !self.flags.carry_flag;
                PcUpdate::Sequential
            },
            InstructionTypes::CMA => {
                self.registers.accumulator = !self.registers.accumulator;
                PcUpdate::Sequential
            },
            InstructionTypes::DAA => self.daa_op(),
            InstructionTypes::SPHL => self.sphl_op(),
            InstructionTypes::XTHL => self.xthl_op(),
            InstructionTypes::PCHL => self.pchl_op(),
            InstructionTypes::RST => self.rst_op(),
            InstructionTypes::Unknown => PcUpdate::Sequential,
        }
    }

    /// One fetch-decode-execute cycle. The decoded instruction is stored;
    /// an unrecognized opcode is reported with the byte and the program
    /// counter and nothing else changes; otherwise the handler runs and the
    /// program counter moves to its explicit target or past the
    /// instruction — unless that would leave the address space, which
    /// halts with the handler's effects applied and the counter unchanged.
    pub fn clock(&mut self) -> (r: ClockOutcome)
        requires
            spec_inv(old(self)@),
        ensures
            ({
                let sr = spec_step(old(self)@);
                final(self)@ == sr.0 && r == sr.1
            }),
            spec_inv(final(self)@),
    {
        self.fetch_instruction();
        let kind_unknown = match self.current_op.instruction_type {
            InstructionTypes::Unknown => true,
            _ => false,
        };
        if kind_unknown {
            return ClockOutcome::IllegalOpcode {
                opcode: self.current_op.machine_code,
                at: self.program_counter,
            };
        }
        let pc0 = self.program_counter;
        let len = self.current_op.get_length();
        let upd = self.execute_instruction();
        match upd {
            PcUpdate::Jump(t) => {
                self.program_counter = t;
                ClockOutcome::Stepped
            },
            PcUpdate::Sequential => {
                let next: u32 = pc0 as u32 + len as u32;
                if next < 0x10000 {
                    self.program_counter = next as u16;
                    ClockOutcome::Stepped
                } else {
                    ClockOutcome::Halted
                }
            },
        }
    }
}

} // verus!

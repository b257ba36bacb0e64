use vstd::prelude::*;

use crate::i8080::flags::{spec_flags_from_byte, spec_flags_to_byte, spec_popcount, StatusFlags};
use crate::i8080::instructions::{spec_decode, spec_len_of_mode, spec_mode_of_kind, Instruction,
    InstructionTypes};
use crate::i8080::state::{spec_exec_op, spec_inst_at, spec_inv, spec_mem, spec_operand,
    spec_op_wf, spec_step, spec_step_add, spec_step_and, spec_step_call, spec_step_cmp,
    spec_step_or, spec_step_pop, spec_step_push, spec_step_ret, spec_step_sub, spec_step_xor,
    wrap16, ClockOutcome, CpuState, PcUpdate};

verus! {

/// The thirteen opcode bytes the architecture leaves undefined here: the
/// seven unused bytes of the low group and the six unused branch-group
/// bytes.
pub open spec fn spec_undefined_opcode(b: u8) -> bool {
    b == 0x08 || b == 0x10 || b == 0x18 || b == 0x20 || b == 0x28 || b == 0x30 || b == 0x38
        || b == 0xCB || b == 0xD9 || b == 0xDB || b == 0xDD || b == 0xED || b == 0xFD
}

/// Decode completeness: decoding is total — every opcode byte yields an
/// instruction carrying that byte, internally consistent with its own
/// stored bytes, with the addressing mode of its kind and its selectors in
/// range — and the unrecognized kind appears exactly for the bytes the
/// architecture leaves undefined.
pub proof fn lemma_decode_complete(b: u8, lsb: u8, msb: u8)
    ensures
        spec_decode(b, lsb, msb).machine_code == b,
        spec_op_wf(spec_decode(b, lsb, msb)),
        spec_decode(b, lsb, msb).instruction_type == InstructionTypes::Unknown
            <==> spec_undefined_opcode(b),
        ({
            let i = spec_decode(b, lsb, msb);
            &&& i.address_mode == spec_mode_of_kind(i.instruction_type, b)
            &&& (i.low_nibble.is_some() ==> i.low_nibble.unwrap() < 8)
            &&& (i.high_nibble.is_some() ==> i.high_nibble.unwrap() < 8)
        }),
{
}

/// Instruction length consistency: a recognized instruction whose handler
/// asks for sequential advance moves the program counter forward by
/// exactly its length, one, two or three; a handler that redirects control
/// lands the counter exactly on its target; and a sequential advance that
/// would leave the address space halts with the counter unchanged.
pub proof fn lemma_step_length_consistency(s: CpuState)
    requires
        spec_inv(s),
    ensures
        ({
            let inst = spec_inst_at(s, s.program_counter);
            let s1 = CpuState { current_op: inst, ..s };
            let r = spec_exec_op(s1);
            let len = spec_len_of_mode(inst.address_mode);
            &&& 1 <= len <= 3
            &&& (inst.instruction_type != InstructionTypes::Unknown && r.1
                == PcUpdate::Sequential && s.program_counter + len < 0x10000)
                ==> spec_step(s).0.program_counter == s.program_counter + len
            &&& (inst.instruction_type != InstructionTypes::Unknown && r.1
                == PcUpdate::Sequential && s.program_counter + len >= 0x10000) ==> (spec_step(
                s,
            ).0.program_counter == s.program_counter && spec_step(s).1 == ClockOutcome::Halted)
            &&& forall|t: u16|
                (inst.instruction_type != InstructionTypes::Unknown && r.1 == PcUpdate::Jump(t))
                    ==> spec_step(s).0.program_counter == t
        }),
{
    lemma_exec_op_keeps_pc(CpuState { current_op: spec_inst_at(s, s.program_counter), ..s });
}

/// No handler touches the program counter itself: it only asks for a
/// movement, which the step applies.
proof fn lemma_exec_op_keeps_pc(s: CpuState)
    ensures
        spec_exec_op(s).0.program_counter == s.program_counter,
{
}

/// One step preserves the structural invariant: memory always keeps its
/// full 16-bit size.
#[verifier::rlimit(40)]
pub proof fn lemma_step_preserves_inv(s: CpuState)
    requires
        spec_inv(s),
    ensures
        spec_inv(spec_step(s).0),
{
}

/// Flag algebra for ADD and ADI: after adding operand b into an
/// accumulator holding a, the accumulator is the sum modulo 256, zero
/// holds exactly of a zero result, sign is the result's top bit, parity is
/// true exactly for an even population count, and carry holds exactly when
/// the true sum exceeds 255.
pub proof fn lemma_add_flag_algebra(s: CpuState, imm: bool)
    ensures
        ({
            let a = s.registers.accumulator;
            let b = spec_operand(s, imm);
            let t = spec_step_add(s, false, imm).0;
            &&& t.registers.accumulator == ((a + b) % 256) as u8
            &&& (t.flags.zero_flag <==> (a + b) % 256 == 0)
            &&& (t.flags.sign_flag <==> (a + b) % 256 >= 128)
            &&& (t.flags.parity_flag <==> spec_popcount(t.registers.accumulator) % 2 == 0)
            &&& (t.flags.carry_flag <==> a + b > 255)
            &&& (t.flags.auxiliary_flag <==> (a as int) % 16 + (b as int) % 16 > 15)
        }),
{
}

/// Flag algebra for SUB and SUI: the accumulator becomes the difference
/// modulo 256, zero holds exactly when the operands are equal, and carry
/// holds exactly on unsigned borrow.
pub proof fn lemma_sub_flag_algebra(s: CpuState, imm: bool)
    ensures
        ({
            let a = s.registers.accumulator;
            let b = spec_operand(s, imm);
            let t = spec_step_sub(s, false, imm).0;
            &&& t.registers.accumulator == ((a + 256 - b) % 256) as u8
            &&& (t.flags.zero_flag <==> a == b)
            &&& (t.flags.sign_flag <==> (a + 256 - b) % 256 >= 128)
            &&& (t.flags.parity_flag <==> spec_popcount(t.registers.accumulator) % 2 == 0)
            &&& (t.flags.carry_flag <==> a < b)
        }),
{
    let a = s.registers.accumulator;
    let b = spec_operand(s, imm);
    assert((a + 512 - b) % 256 == (a + 256 - b) % 256);
}

/// Flag algebra for the logical group: AND, OR and XOR leave carry and
/// auxiliary carry clear, and zero, sign and parity follow the bitwise
/// result.
pub proof fn lemma_logic_flag_algebra(s: CpuState, imm: bool)
    ensures
        ({
            let a = s.registers.accumulator;
            let b = spec_operand(s, imm);
            let t_and = spec_step_and(s, imm).0;
            let t_or = spec_step_or(s, imm).0;
            let t_xor = spec_step_xor(s, imm).0;
            &&& t_and.registers.accumulator == (a & b)
            &&& t_or.registers.accumulator == (a | b)
            &&& t_xor.registers.accumulator == (a ^ b)
            &&& !t_and.flags.carry_flag && !t_and.flags.auxiliary_flag
            &&& !t_or.flags.carry_flag && !t_or.flags.auxiliary_flag
            &&& !t_xor.flags.carry_flag && !t_xor.flags.auxiliary_flag
            &&& (t_and.flags.zero_flag <==> (a & b) == 0)
            &&& (t_and.flags.sign_flag <==> (a & b) >= 128)
            &&& (t_and.flags.parity_flag <==> spec_popcount((a & b)) % 2 == 0)
            &&& (t_or.flags.zero_flag <==> (a | b) == 0)
            &&& (t_or.flags.sign_flag <==> (a | b) >= 128)
            &&& (t_or.flags.parity_flag <==> spec_popcount((a | b)) % 2 == 0)
            &&& (t_xor.flags.zero_flag <==> (a ^ b) == 0)
            &&& (t_xor.flags.sign_flag <==> (a ^ b) >= 128)
            &&& (t_xor.flags.parity_flag <==> spec_popcount((a ^ b)) % 2 == 0)
        }),
{
}

/// Flag algebra for CMP and CPI: the flags are exactly the subtraction's,
/// and the accumulator and every other register are untouched.
pub proof fn lemma_cmp_flag_algebra(s: CpuState, imm: bool)
    ensures
        ({
            let a = s.registers.accumulator;
            let b = spec_operand(s, imm);
            let t = spec_step_cmp(s, imm).0;
            &&& t.registers == s.registers
            &&& t.memory == s.memory
            &&& t.flags == spec_step_sub(s, false, imm).0.flags
        }),
{
    let a = s.registers.accumulator;
    let b = spec_operand(s, imm);
    assert((a + 512 - b) % 256 == (a + 512 - b - 0) % 256);
}

/// Packing the five flags into the program-status-word byte and unpacking
/// it restores them exactly.
pub proof fn lemma_flags_byte_round_trip(f: StatusFlags)
    ensures
        spec_flags_from_byte(spec_flags_to_byte(f)) == f,
{
}

/// The stack-pointer movements of a push followed by a pop cancel: two
/// down then one up is one down, and two down then two up is the start.
proof fn lemma_sp_wrap(sp: u16)
    ensures
        wrap16(wrap16(sp as int + 0xFFFE) as int + 1) == wrap16(sp as int + 0xFFFF),
        wrap16(wrap16(sp as int + 0xFFFE) as int + 2) == sp,
        wrap16(sp as int + 0xFFFF) != wrap16(sp as int + 0xFFFE),
{
    if sp >= 2 {
        assert(wrap16(sp as int + 0xFFFE) == sp - 2);
        assert(wrap16(sp as int + 0xFFFF) == sp - 1);
    } else if sp == 1 {
        assert(wrap16(sp as int + 0xFFFE) == 0xFFFF);
        assert(wrap16(sp as int + 0xFFFF) == 0);
        assert(wrap16(0xFFFF as int + 1) == 0);
        assert(wrap16(0xFFFF as int + 2) == 1);
    } else {
        assert(wrap16(sp as int + 0xFFFE) == 0xFFFE);
        assert(wrap16(sp as int + 0xFFFF) == 0xFFFF);
    }
}

/// Stack round-trip: a PUSH of any register-pair selector followed at once
/// by a POP of the same selector restores the registers and flags — for
/// selector 3, the program status word: the flags byte and the
/// accumulator, never the stack pointer — and returns the stack pointer to
/// its value before the push. Only the two stack bytes below the starting
/// stack pointer differ.
pub proof fn lemma_stack_round_trip(s: CpuState, i_pop: Instruction)
    requires
        spec_inv(s),
        s.current_op.low_nibble.is_some(),
        i_pop.low_nibble == s.current_op.low_nibble,
    ensures
        ({
            let s1 = spec_step_push(s).0;
            let s2 = spec_step_pop(CpuState { current_op: i_pop, ..s1 }).0;
            &&& s2.stack_pointer == s.stack_pointer
            &&& s2.registers == s.registers
            &&& s2.flags == s.flags
            &&& s2.memory == s1.memory
            &&& forall|a: int|
                0 <= a < s.memory.len() && a != wrap16(s.stack_pointer as int + 0xFFFF) as int
                    && a != wrap16(s.stack_pointer as int + 0xFFFE) as int ==> s2.memory[a]
                    == s.memory[a]
        }),
{
    lemma_sp_wrap(s.stack_pointer);
    lemma_flags_byte_round_trip(s.flags);
    let code = s.current_op.low_nibble.unwrap();
    let s1 = spec_step_push(s).0;
    let s2 = spec_step_pop(CpuState { current_op: i_pop, ..s1 }).0;
    if (code as int) % 4 == 3 {
        assert(s2.registers == s.registers);
    } else {
        assert(s2.registers =~= s.registers);
    }
}

/// Call/return round-trip: executing a CALL, and then — the target byte
/// holding a RET — executing that RET, leaves the program counter at the
/// address of the instruction following the CALL and the stack pointer
/// where it began.
pub proof fn lemma_call_ret_round_trip(s: CpuState)
    requires
        spec_inv(s),
        spec_mem(s, s.program_counter) == 0xCD,
        ({
            let s1 = spec_step(s).0;
            spec_mem(s1, s1.program_counter) == 0xC9
        }),
    ensures
        spec_step(s).1 == ClockOutcome::Stepped,
        spec_step(spec_step(s).0).1 == ClockOutcome::Stepped,
        spec_step(spec_step(s).0).0.program_counter == wrap16(s.program_counter as int + 3),
        spec_step(spec_step(s).0).0.stack_pointer == s.stack_pointer,
{
    lemma_sp_wrap(s.stack_pointer);
    let ret = wrap16(s.program_counter as int + 3);
    assert(ret as int / 256 * 256 + ret as int % 256 == ret as int);
}

} // verus!

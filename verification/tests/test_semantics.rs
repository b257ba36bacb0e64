use remus8080::i8080::instructions::{AddressMode, Instruction, InstructionTypes};
use remus8080::i8080::registers::Registers;
use remus8080::i8080::state::ClockOutcome;
use remus8080::i8080::Processor;

/// Load the accumulator with 5, then add 3: accumulator 8, carry and zero
/// clear.
#[test]
fn immediate_add_scenario() {
    let mut cpu = Processor::from_bytes(vec![0x3E, 0x05, 0xC6, 0x03]);
    cpu.clock();
    cpu.clock();
    let regs = cpu.get_registers();
    let flags = cpu.get_flags();
    assert_eq!(regs.accumulator, 8);
    assert_eq!(flags.carry_flag, false);
    assert_eq!(flags.zero_flag, false);
}

/// CALL to 0x1337 where a RET waits: one step lands on the target, the
/// next returns to the byte after the three-byte CALL.
#[test]
fn call_ret_scenario() {
    let mut mem = vec![0u8; 0x1400];
    mem[0] = 0xCD;
    mem[1] = 0x37;
    mem[2] = 0x13;
    mem[0x1337] = 0xC9;
    let mut cpu = Processor::from_bytes(mem);
    cpu.clock();
    assert_eq!(cpu.get_pc(), 0x1337);
    cpu.clock();
    assert_eq!(cpu.get_pc(), 3);
}

/// JNZ with the zero flag set falls through to the byte after the
/// three-byte instruction; with the zero flag clear it lands on the
/// target.
#[test]
fn conditional_jump_scenario() {
    let mut mem = vec![0u8; 0x1400];
    mem[0] = 0xC2;
    mem[1] = 0x37;
    mem[2] = 0x13;
    let mut cpu = Processor::from_bytes(mem.clone());
    cpu.set_flags_cszp(false, false, 0);
    assert!(cpu.get_flags().zero_flag);
    cpu.clock();
    assert_eq!(cpu.get_pc(), 3);

    let mut cpu = Processor::from_bytes(mem);
    cpu.set_flags_cszp(false, false, 1);
    assert!(!cpu.get_flags().zero_flag);
    cpu.clock();
    assert_eq!(cpu.get_pc(), 0x1337);
}

/// PUSH of the fourth pair encoding stores the flags byte and the
/// accumulator — not the stack pointer — and POP of the same encoding
/// restores them, with the stack pointer back where it began.
#[test]
fn psw_push_pop_scenario() {
    let mut cpu = Processor::from_bytes(vec![0xF5, 0xF1]);
    cpu.set_flags_cszp(true, false, 0);
    let saved_flags = cpu.get_flags();
    assert!(saved_flags.carry_flag && saved_flags.zero_flag && saved_flags.parity_flag);
    let mut regs = cpu.get_registers();
    regs.accumulator = 0x9A;
    cpu.set_all_registers(regs);
    assert_eq!(cpu.get_stack_pointer(), 0x20);

    cpu.clock();
    assert_eq!(cpu.get_stack_pointer(), 0x1E);
    // flags byte: carry, the always-one bit, parity, zero.
    assert_eq!(cpu.get_memory_at(0x1F), 0b0100_0111);
    assert_eq!(cpu.get_memory_at(0x1E), 0x9A);

    // Disturb the flags and the accumulator before popping.
    cpu.set_flags_cszp(false, true, 0x80);
    let mut regs = cpu.get_registers();
    regs.accumulator = 0x00;
    cpu.set_all_registers(regs);

    cpu.clock();
    assert_eq!(cpu.get_stack_pointer(), 0x20);
    assert_eq!(cpu.get_flags(), saved_flags);
    assert_eq!(cpu.get_registers().accumulator, 0x9A);
}

/// PUSH then POP of each plain register pair restores the pair and the
/// stack pointer.
#[test]
fn pair_push_pop_round_trip() {
    let programs: [(u8, u8); 3] = [(0xC5, 0xC1), (0xD5, 0xD1), (0xE5, 0xE1)];
    for (push, pop) in programs {
        let mut cpu = Processor::from_bytes(vec![push, pop]);
        let regs = Registers {
            accumulator: 1,
            b: 0x12,
            c: 0x34,
            d: 0x56,
            e: 0x78,
            h: 0x9A,
            l: 0xBC,
        };
        cpu.set_all_registers(regs);
        cpu.clock();
        assert_eq!(cpu.get_stack_pointer(), 0x1E);
        cpu.clock();
        assert_eq!(cpu.get_stack_pointer(), 0x20);
        assert_eq!(cpu.get_registers(), regs);
    }
}

/// Every byte decodes; the unrecognized kind appears exactly for the
/// thirteen opcode bytes the architecture leaves undefined.
#[test]
fn decode_covers_every_byte() {
    let undefined = [
        0x08u8, 0x10, 0x18, 0x20, 0x28, 0x30, 0x38, 0xCB, 0xD9, 0xDB, 0xDD, 0xED, 0xFD,
    ];
    for b in 0..=255u8 {
        let inst = Instruction::from_byte(b);
        assert_eq!(inst.machine_code, b);
        let len = inst.get_length();
        assert!(1 <= len && len <= 3);
        let is_unknown = inst.instruction_type == InstructionTypes::Unknown;
        assert_eq!(is_unknown, undefined.contains(&b), "opcode {:#04X}", b);
    }
}

/// Spot checks of the decode table: kind, addressing mode and length for
/// one representative of each family.
#[test]
fn decode_spot_checks() {
    let expect = [
        (0x00u8, InstructionTypes::NOP, 1u8),
        (0x01, InstructionTypes::LXI, 3),
        (0x02, InstructionTypes::STAX, 1),
        (0x03, InstructionTypes::INX, 1),
        (0x04, InstructionTypes::INR, 1),
        (0x05, InstructionTypes::DCR, 1),
        (0x06, InstructionTypes::MVI, 2),
        (0x07, InstructionTypes::RLC, 1),
        (0x09, InstructionTypes::DAD, 1),
        (0x0A, InstructionTypes::LDAX, 1),
        (0x0B, InstructionTypes::DCX, 1),
        (0x0F, InstructionTypes::RRC, 1),
        (0x17, InstructionTypes::RAL, 1),
        (0x1F, InstructionTypes::RAR, 1),
        (0x22, InstructionTypes::SHLD, 3),
        (0x27, InstructionTypes::DAA, 1),
        (0x2A, InstructionTypes::LHLD, 3),
        (0x2F, InstructionTypes::CMA, 1),
        (0x32, InstructionTypes::STA, 3),
        (0x37, InstructionTypes::STC, 1),
        (0x3A, InstructionTypes::LDA, 3),
        (0x3F, InstructionTypes::CMC, 1),
        (0x41, InstructionTypes::MOV, 1),
        (0xC1, InstructionTypes::POP, 1),
        (0xC2, InstructionTypes::JNZ, 3),
        (0xC3, InstructionTypes::JMP, 3),
        (0xC4, InstructionTypes::CNZ, 3),
        (0xC5, InstructionTypes::PUSH, 1),
        (0xC6, InstructionTypes::ADI, 2),
        (0xC7, InstructionTypes::RST, 1),
        (0xC9, InstructionTypes::RET, 1),
        (0xCD, InstructionTypes::CALL, 3),
        (0xD3, InstructionTypes::OUT, 1),
        (0xE3, InstructionTypes::XTHL, 1),
        (0xE9, InstructionTypes::PCHL, 1),
        (0xEB, InstructionTypes::XCHG, 1),
        (0xF3, InstructionTypes::DI, 1),
        (0xF9, InstructionTypes::SPHL, 1),
        (0xFB, InstructionTypes::EI, 1),
        (0xFE, InstructionTypes::CPI, 2),
    ];
    for (b, kind, len) in expect {
        let inst = Instruction::from_byte(b);
        assert_eq!(inst.instruction_type, kind, "opcode {:#04X}", b);
        assert_eq!(inst.get_length(), len, "opcode {:#04X}", b);
    }
    assert_eq!(Instruction::from_byte(0x06).address_mode, AddressMode::ImmediateOneByte);
    assert_eq!(Instruction::from_byte(0x01).address_mode, AddressMode::ImmediateTwoBytes);
    assert_eq!(Instruction::from_byte(0xC5).address_mode, AddressMode::StackPointer);
}

/// One clock advances the program counter by exactly the decoded length
/// for straight-line instructions.
#[test]
fn length_consistency() {
    let straight_line: [u8; 12] = [
        0x00, 0x01, 0x06, 0x3E, 0x04, 0x09, 0x32, 0x3A, 0x80, 0xC6, 0xE6, 0xFE,
    ];
    for b in straight_line {
        let mut cpu = Processor::from_bytes(vec![b, 0x50, 0x01]);
        let len = Instruction::from_byte(b).get_length() as u16;
        let outcome = cpu.clock();
        assert_eq!(outcome, ClockOutcome::Stepped, "opcode {:#04X}", b);
        assert_eq!(cpu.get_pc(), len, "opcode {:#04X}", b);
    }
}

/// An opcode with no defined mapping is reported with the byte and the
/// program counter, and the processor does not run on.
#[test]
fn illegal_opcode_is_fatal() {
    let mut cpu = Processor::from_bytes(vec![0x00, 0x08]);
    assert_eq!(cpu.clock(), ClockOutcome::Stepped);
    let outcome = cpu.clock();
    assert_eq!(outcome, ClockOutcome::IllegalOpcode { opcode: 0x08, at: 1 });
    assert_eq!(cpu.get_pc(), 1);
}

/// Advancing past the top of the address space is a controlled halt, not
/// an error: the instruction still executes, the counter stays put.
#[test]
fn end_of_memory_halts() {
    let mut cpu = Processor::from_bytes(vec![0xC3, 0xFF, 0xFF]);
    assert_eq!(cpu.clock(), ClockOutcome::Stepped);
    assert_eq!(cpu.get_pc(), 0xFFFF);
    let mut regs = cpu.get_registers();
    regs.b = 7;
    cpu.set_all_registers(regs);
    cpu.set_memory_at(0xFFFF, 0x04);
    let outcome = cpu.clock();
    assert_eq!(outcome, ClockOutcome::Halted);
    assert_eq!(cpu.get_pc(), 0xFFFF);
    assert_eq!(cpu.get_registers().b, 8);
}

/// The rotate family, one exact case each.
#[test]
fn rotates() {
    // RLC: 1000_0101 becomes 0000_1011, carry from the wrapped bit.
    let mut cpu = Processor::from_bytes(vec![0x07]);
    let mut regs = cpu.get_registers();
    regs.accumulator = 0x85;
    cpu.set_all_registers(regs);
    cpu.clock();
    assert_eq!(cpu.get_registers().accumulator, 0x0B);
    assert!(cpu.get_flags().carry_flag);

    // RRC: 0000_0001 becomes 1000_0000, carry set.
    let mut cpu = Processor::from_bytes(vec![0x0F]);
    let mut regs = cpu.get_registers();
    regs.accumulator = 0x01;
    cpu.set_all_registers(regs);
    cpu.clock();
    assert_eq!(cpu.get_registers().accumulator, 0x80);
    assert!(cpu.get_flags().carry_flag);

    // RAL with carry set: 0100_0000 becomes 1000_0001, carry cleared.
    let mut cpu = Processor::from_bytes(vec![0x17]);
    cpu.set_flags_cszp(true, false, 1);
    let mut regs = cpu.get_registers();
    regs.accumulator = 0x40;
    cpu.set_all_registers(regs);
    cpu.clock();
    assert_eq!(cpu.get_registers().accumulator, 0x81);
    assert!(!cpu.get_flags().carry_flag);

    // RAR with carry set: 0000_0010 becomes 1000_0001, carry cleared.
    let mut cpu = Processor::from_bytes(vec![0x1F]);
    cpu.set_flags_cszp(true, false, 1);
    let mut regs = cpu.get_registers();
    regs.accumulator = 0x02;
    cpu.set_all_registers(regs);
    cpu.clock();
    assert_eq!(cpu.get_registers().accumulator, 0x81);
    assert!(!cpu.get_flags().carry_flag);
}

/// Auxiliary carry on ADD is the low-nibble overflow of the operands;
/// carry and zero on the wrap-around sum.
#[test]
fn add_flag_edges() {
    let mut cpu = Processor::from_bytes(vec![0xC6, 0x01]);
    let mut regs = cpu.get_registers();
    regs.accumulator = 0x0F;
    cpu.set_all_registers(regs);
    cpu.clock();
    let flags = cpu.get_flags();
    assert_eq!(cpu.get_registers().accumulator, 0x10);
    assert!(flags.auxiliary_flag);
    assert!(!flags.carry_flag);
    assert!(!flags.zero_flag);

    let mut cpu = Processor::from_bytes(vec![0xC6, 0x01]);
    let mut regs = cpu.get_registers();
    regs.accumulator = 0xFF;
    cpu.set_all_registers(regs);
    cpu.clock();
    let flags = cpu.get_flags();
    assert_eq!(cpu.get_registers().accumulator, 0x00);
    assert!(flags.carry_flag);
    assert!(flags.zero_flag);
    assert!(flags.parity_flag);
}

/// Subtraction borrow: comparing a smaller accumulator against a larger
/// operand sets carry; equality sets zero and leaves the accumulator
/// untouched under CMP.
#[test]
fn sub_and_cmp_flag_edges() {
    let mut cpu = Processor::from_bytes(vec![0xD6, 0x05]);
    let mut regs = cpu.get_registers();
    regs.accumulator = 0x03;
    cpu.set_all_registers(regs);
    cpu.clock();
    let flags = cpu.get_flags();
    assert_eq!(cpu.get_registers().accumulator, 0xFE);
    assert!(flags.carry_flag);
    assert!(flags.sign_flag);

    let mut cpu = Processor::from_bytes(vec![0xFE, 0x42]);
    let mut regs = cpu.get_registers();
    regs.accumulator = 0x42;
    cpu.set_all_registers(regs);
    cpu.clock();
    let flags = cpu.get_flags();
    assert_eq!(cpu.get_registers().accumulator, 0x42);
    assert!(flags.zero_flag);
    assert!(!flags.carry_flag);
}

/// The logical group forces carry and auxiliary carry clear.
#[test]
fn logic_clears_carry() {
    let mut cpu = Processor::from_bytes(vec![0xE6, 0x0F]);
    cpu.set_flags_cszp(true, true, 1);
    let mut regs = cpu.get_registers();
    regs.accumulator = 0x3C;
    cpu.set_all_registers(regs);
    cpu.clock();
    let flags = cpu.get_flags();
    assert_eq!(cpu.get_registers().accumulator, 0x0C);
    assert!(!flags.carry_flag);
    assert!(!flags.auxiliary_flag);
}

/// Decimal adjustment of 0x9B: both nibble corrections fire, leaving 0x01
/// with carry and auxiliary carry set.
#[test]
fn daa_adjusts_both_nibbles() {
    let mut cpu = Processor::from_bytes(vec![0x27]);
    let mut regs = cpu.get_registers();
    regs.accumulator = 0x9B;
    cpu.set_all_registers(regs);
    cpu.clock();
    let flags = cpu.get_flags();
    assert_eq!(cpu.get_registers().accumulator, 0x01);
    assert!(flags.carry_flag);
    assert!(flags.auxiliary_flag);
}

/// OUT copies the accumulator into the output latch and nowhere else.
#[test]
fn out_writes_latch() {
    let mut cpu = Processor::from_bytes(vec![0xD3]);
    let mut regs = cpu.get_registers();
    regs.accumulator = 0x5A;
    cpu.set_all_registers(regs);
    assert_eq!(cpu.get_out(), 0);
    cpu.clock();
    assert_eq!(cpu.get_out(), 0x5A);
    assert_eq!(cpu.get_pc(), 1);
}

/// Direct and indirect loads and stores: STA, LDA, STAX, LDAX, SHLD, LHLD.
#[test]
fn loads_and_stores() {
    let mut cpu = Processor::from_bytes(vec![0x32, 0x00, 0x20, 0x3A, 0x00, 0x20]);
    let mut regs = cpu.get_registers();
    regs.accumulator = 0x77;
    cpu.set_all_registers(regs);
    cpu.clock();
    assert_eq!(cpu.get_memory_at(0x2000), 0x77);
    let mut regs = cpu.get_registers();
    regs.accumulator = 0;
    cpu.set_all_registers(regs);
    cpu.clock();
    assert_eq!(cpu.get_registers().accumulator, 0x77);

    let mut cpu = Processor::from_bytes(vec![0x02, 0x1A]);
    let regs = Registers { accumulator: 0x11, b: 0x30, c: 0x05, d: 0x30, e: 0x05, h: 0, l: 0 };
    cpu.set_all_registers(regs);
    cpu.clock();
    assert_eq!(cpu.get_memory_at(0x3005), 0x11);
    let mut regs = cpu.get_registers();
    regs.accumulator = 0;
    cpu.set_all_registers(regs);
    cpu.clock();
    assert_eq!(cpu.get_registers().accumulator, 0x11);

    let mut cpu = Processor::from_bytes(vec![0x22, 0x00, 0x21, 0x2A, 0x00, 0x21]);
    let regs = Registers { accumulator: 0, b: 0, c: 0, d: 0, e: 0, h: 0xAB, l: 0xCD };
    cpu.set_all_registers(regs);
    cpu.clock();
    assert_eq!(cpu.get_memory_at(0x2100), 0xCD);
    assert_eq!(cpu.get_memory_at(0x2101), 0xAB);
    let regs = Registers { accumulator: 0, b: 0, c: 0, d: 0, e: 0, h: 0, l: 0 };
    cpu.set_all_registers(regs);
    cpu.clock();
    assert_eq!(cpu.get_registers().h, 0xAB);
    assert_eq!(cpu.get_registers().l, 0xCD);
}

/// Pair stepping: INX wraps 0xFFFF to zero, DCX wraps zero to 0xFFFF, and
/// neither touches the flags.
#[test]
fn pair_step_wraps() {
    let mut cpu = Processor::from_bytes(vec![0x03, 0x0B, 0x0B]);
    let regs = Registers { accumulator: 0, b: 0xFF, c: 0xFF, d: 0, e: 0, h: 0, l: 0 };
    cpu.set_all_registers(regs);
    let flags_before = cpu.get_flags();
    cpu.clock();
    assert_eq!(cpu.get_registers().b, 0);
    assert_eq!(cpu.get_registers().c, 0);
    cpu.clock();
    assert_eq!(cpu.get_registers().b, 0xFF);
    assert_eq!(cpu.get_registers().c, 0xFF);
    cpu.clock();
    assert_eq!(cpu.get_registers().b, 0xFF);
    assert_eq!(cpu.get_registers().c, 0xFE);
    assert_eq!(cpu.get_flags(), flags_before);
}

/// DAD adds a pair into HL and reports the 16-bit overflow in carry.
#[test]
fn dad_adds_into_hl() {
    let mut cpu = Processor::from_bytes(vec![0x09]);
    let regs = Registers { accumulator: 0, b: 0xF0, c: 0x00, d: 0, e: 0, h: 0x20, l: 0x01 };
    cpu.set_all_registers(regs);
    cpu.clock();
    assert_eq!(cpu.get_registers().h, 0x10);
    assert_eq!(cpu.get_registers().l, 0x01);
    assert!(cpu.get_flags().carry_flag);
}

/// DCR sets auxiliary carry exactly when the low nibble was empty, and
/// never touches carry.
#[test]
fn dcr_aux_behaviour() {
    let mut cpu = Processor::from_bytes(vec![0x05]);
    let regs = Registers { accumulator: 0, b: 0x10, c: 0, d: 0, e: 0, h: 0, l: 0 };
    cpu.set_all_registers(regs);
    cpu.clock();
    assert_eq!(cpu.get_registers().b, 0x0F);
    assert!(cpu.get_flags().auxiliary_flag);
    assert!(!cpu.get_flags().carry_flag);
}

/// XTHL swaps HL with the stack top; SPHL and PCHL copy HL into the stack
/// pointer and the program counter.
#[test]
fn hl_exchanges() {
    let mut cpu = Processor::from_bytes(vec![0xE3]);
    cpu.set_memory_at(0x20, 0x34);
    cpu.set_memory_at(0x21, 0x12);
    let regs = Registers { accumulator: 0, b: 0, c: 0, d: 0, e: 0, h: 0xAB, l: 0xCD };
    cpu.set_all_registers(regs);
    cpu.clock();
    assert_eq!(cpu.get_registers().h, 0x12);
    assert_eq!(cpu.get_registers().l, 0x34);
    assert_eq!(cpu.get_memory_at(0x20), 0xCD);
    assert_eq!(cpu.get_memory_at(0x21), 0xAB);

    let mut cpu = Processor::from_bytes(vec![0xF9, 0xE9]);
    let regs = Registers { accumulator: 0, b: 0, c: 0, d: 0, e: 0, h: 0x43, l: 0x21 };
    cpu.set_all_registers(regs);
    cpu.clock();
    assert_eq!(cpu.get_stack_pointer(), 0x4321);
    let mut cpu = Processor::from_bytes(vec![0xE9]);
    let regs = Registers { accumulator: 0, b: 0, c: 0, d: 0, e: 0, h: 0x43, l: 0x21 };
    cpu.set_all_registers(regs);
    cpu.clock();
    assert_eq!(cpu.get_pc(), 0x4321);
}

/// STC sets carry, CMC complements it, CMA complements the accumulator.
#[test]
fn carry_and_complement() {
    let mut cpu = Processor::from_bytes(vec![0x37, 0x3F, 0x2F]);
    cpu.clock();
    assert!(cpu.get_flags().carry_flag);
    cpu.clock();
    assert!(!cpu.get_flags().carry_flag);
    let mut regs = cpu.get_registers();
    regs.accumulator = 0x0F;
    cpu.set_all_registers(regs);
    cpu.clock();
    assert_eq!(cpu.get_registers().accumulator, 0xF0);
}

/// The fourth pair selector outside PUSH and POP denotes the stack
/// pointer: LXI SP loads it, INX SP steps it.
#[test]
fn sp_as_fourth_pair() {
    let mut cpu = Processor::from_bytes(vec![0x31, 0xCD, 0xAB, 0x33]);
    cpu.clock();
    assert_eq!(cpu.get_stack_pointer(), 0xABCD);
    cpu.clock();
    assert_eq!(cpu.get_stack_pointer(), 0xABCE);
}

/// Reset restores the defaults but keeps memory; resetting the program
/// counter alone touches nothing else.
#[test]
fn reset_keeps_memory() {
    let mut cpu = Processor::from_bytes(vec![0x3E, 0x07, 0x3E, 0x08]);
    cpu.clock();
    assert_eq!(cpu.get_registers().accumulator, 7);
    assert_eq!(cpu.get_pc(), 2);
    cpu.reset();
    assert_eq!(cpu.get_pc(), 0);
    assert_eq!(cpu.get_stack_pointer(), 0x20);
    assert_eq!(cpu.get_registers().accumulator, 0);
    assert_eq!(cpu.get_memory_at(0), 0x3E);
    assert_eq!(cpu.get_memory_at(3), 0x08);
    cpu.clock();
    cpu.reset_pc();
    assert_eq!(cpu.get_pc(), 0);
    assert_eq!(cpu.get_registers().accumulator, 7);
}

/// The image is loaded verbatim at address zero and the rest of memory is
/// clear.
#[test]
fn from_bytes_pads_with_zeros() {
    let cpu = Processor::from_bytes(vec![1, 2, 3]);
    let mem = cpu.get_memory();
    assert_eq!(mem.len(), 0x10000);
    assert_eq!(&mem[0..3], &[1, 2, 3]);
    assert_eq!(mem[3], 0);
    assert_eq!(mem[0xFFFF], 0);
}

/// The disassembly peek follows instruction lengths, does not execute, and
/// leaves the processor untouched.
#[test]
fn peek_disassembles_without_executing() {
    let mut cpu = Processor::from_bytes(vec![0x3E, 0x05, 0xC6, 0x03, 0x00, 0xC3, 0x00, 0x00]);
    let ops = cpu.get_instructions(4);
    assert_eq!(ops.len(), 4);
    assert_eq!(ops[0].instruction_type, InstructionTypes::MVI);
    assert_eq!(ops[1].instruction_type, InstructionTypes::ADI);
    assert_eq!(ops[2].instruction_type, InstructionTypes::NOP);
    assert_eq!(ops[3].instruction_type, InstructionTypes::JMP);
    assert_eq!(cpu.get_pc(), 0);
    assert_eq!(cpu.get_registers().accumulator, 0);
    cpu.clock();
    assert_eq!(cpu.get_registers().accumulator, 5);
}

/// Fetch decodes the instruction at the program counter, with its trailing
/// bytes, without executing it.
#[test]
fn fetch_decodes_in_place() {
    let mut cpu = Processor::from_bytes(vec![0xC6, 0x03]);
    cpu.fetch_instruction();
    let op = cpu.get_current_op();
    assert_eq!(op.instruction_type, InstructionTypes::ADI);
    assert_eq!(op.machine_code, 0xC6);
    assert_eq!(cpu.get_pc(), 0);
    assert_eq!(cpu.get_registers().accumulator, 0);
    assert_eq!(cpu.get_immediate(), 0x03);
    assert_eq!(cpu.get_direct_address(), 0x0003);
}

/// Mnemonics and the raw byte for disassembly display.
#[test]
fn names_and_bytes() {
    let (byte, name) = Instruction::from_byte(0xC3).get_name_byte();
    assert_eq!(byte, 0xC3);
    assert_eq!(name, "JMP");
    let (_, name) = Instruction::from_byte(0x08).get_name_byte();
    assert_eq!(name, "??");
    assert_eq!(Registers::translate_to_reg(0), "B");
    assert_eq!(Registers::translate_to_reg(6), "MEM");
    assert_eq!(Registers::translate_to_reg(7), "A");
}

/// RST pushes two stack bytes and lands on the reset vector held in the
/// opcode.
#[test]
fn rst_jumps_to_vector() {
    let mut cpu = Processor::from_bytes(vec![0xD7]);
    cpu.clock();
    assert_eq!(cpu.get_pc(), 0x10);
    assert_eq!(cpu.get_stack_pointer(), 0x1E);
}

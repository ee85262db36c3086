use cash_gb::cpu::alu::{
    add_bytes, add_offset, add_words, decimal_adjust, rotate_byte, subtract_bytes, swap_nibbles,
    RotateKind,
};
use cash_gb::cpu::instructions::{
    AddSource, AddTarget, BitwiseSource, CpuStatus, Flag, Instruction, Interrupt, JumpCondition,
    LoadSource, LoadTarget,
};
use cash_gb::cpu::registers::Register;
use cash_gb::cpu::Cpu;
use cash_gb::memory::cart::cart_header::NINTENDO_LOGO;
use cash_gb::memory::cart::Cart;

fn machine(program: &[u8]) -> Cpu {
    let mut data = vec![0u8; 0x8000];
    for (i, byte) in NINTENDO_LOGO.iter().enumerate() {
        data[0x0104 + i] = *byte;
    }
    // The entry point holds a jump to itself.
    data[0x0100] = 0x18;
    data[0x0101] = 0xFE;
    let mut checksum = 0u8;
    for at in 0x0134..=0x014C {
        checksum = checksum.wrapping_sub(data[at]).wrapping_sub(1);
    }
    data[0x014D] = checksum;
    let mut cpu = Cpu::new(Cart::new(&data).unwrap());
    for (i, byte) in program.iter().enumerate() {
        cpu.write(&(0xC000 + i as u16), *byte);
    }
    cpu.program_counter = 0xC000;
    cpu.register.set_af(0x0000);
    cpu
}

/// Runs one instruction to its end and returns the machine cycles it took.
fn run_one(cpu: &mut Cpu) -> u32 {
    let mut cycles = 1;
    cpu.step();
    while cpu.step_count != 0 {
        cpu.step();
        cycles += 1;
    }
    cycles
}

fn flags(cpu: &Cpu) -> (bool, bool, bool, bool) {
    cpu.get_flags()
}

#[test]
fn test_decode_unassigned_opcodes() {
    for opcode in [0xD3u8, 0xDB, 0xDD, 0xE3, 0xE4, 0xEB, 0xEC, 0xED, 0xF4, 0xFC, 0xFD] {
        assert_eq!(Instruction::get_instruction(&opcode), (Instruction::Illegal(opcode), 1));
    }
    let mut illegal = 0;
    for opcode in 0..=255u8 {
        let (instruction, cycles) = Instruction::get_instruction(&opcode);
        assert!((1..=6).contains(&cycles));
        if matches!(instruction, Instruction::Illegal(_)) {
            illegal += 1;
        }
    }
    assert_eq!(illegal, 11);
}

#[test]
fn test_decode_samples_of_the_primary_table() {
    assert_eq!(Instruction::get_instruction(&0x00), (Instruction::Nop, 1));
    assert_eq!(
        Instruction::get_instruction(&0x01),
        (Instruction::Load(LoadTarget::BC, LoadSource::PC16), 3)
    );
    assert_eq!(
        Instruction::get_instruction(&0x08),
        (Instruction::Load(LoadTarget::PC16Addr, LoadSource::SP), 5)
    );
    assert_eq!(Instruction::get_instruction(&0x10), (Instruction::Stop, 1));
    assert_eq!(
        Instruction::get_instruction(&0x18),
        (Instruction::JumpRelative(JumpCondition::Always), 3)
    );
    assert_eq!(
        Instruction::get_instruction(&0x20),
        (Instruction::JumpRelative(JumpCondition::NZ), 2)
    );
    assert_eq!(
        Instruction::get_instruction(&0x36),
        (Instruction::Load(LoadTarget::HLAddr, LoadSource::PC), 3)
    );
    assert_eq!(Instruction::get_instruction(&0x07), (Instruction::RotateLeftCircularAccumulator, 1));
    assert_eq!(
        Instruction::get_instruction(&0x46),
        (Instruction::Load(LoadTarget::B, LoadSource::HLAddr), 2)
    );
    assert_eq!(
        Instruction::get_instruction(&0x70),
        (Instruction::Load(LoadTarget::HLAddr, LoadSource::B), 2)
    );
    assert_eq!(Instruction::get_instruction(&0x76), (Instruction::Halt, 1));
    assert_eq!(
        Instruction::get_instruction(&0x7F),
        (Instruction::Load(LoadTarget::A, LoadSource::A), 1)
    );
    assert_eq!(
        Instruction::get_instruction(&0x86),
        (Instruction::Add(AddTarget::A, AddSource::HLAddr), 2)
    );
    assert_eq!(
        Instruction::get_instruction(&0xCD),
        (Instruction::Call(JumpCondition::Always), 6)
    );
    assert_eq!(Instruction::get_instruction(&0xC9), (Instruction::Return(JumpCondition::Always), 4));
    assert_eq!(Instruction::get_instruction(&0xC0), (Instruction::Return(JumpCondition::NZ), 2));
    assert_eq!(Instruction::get_instruction(&0xC5).1, 4);
    assert_eq!(Instruction::get_instruction(&0xC1).1, 3);
    assert_eq!(
        Instruction::get_instruction(&0xE8),
        (Instruction::Add(AddTarget::SP, AddSource::PCe), 4)
    );
    assert_eq!(
        Instruction::get_instruction(&0xF8),
        (Instruction::Load(LoadTarget::HL, LoadSource::SPE), 3)
    );
    assert_eq!(Instruction::get_instruction(&0xFF), (Instruction::Restart(0x38), 4));
    assert_eq!(Instruction::get_instruction(&0xCB), (Instruction::CB, 1));
}

#[test]
fn test_decode_samples_of_the_prefixed_table() {
    assert_eq!(
        Instruction::get_cb_instruction(&0x00),
        (Instruction::RotateLeftCircular(BitwiseSource::B), 1)
    );
    assert_eq!(
        Instruction::get_cb_instruction(&0x1E),
        (Instruction::RotateRight(BitwiseSource::HLAddr), 3)
    );
    assert_eq!(Instruction::get_cb_instruction(&0x37), (Instruction::Swap(BitwiseSource::A), 1));
    assert_eq!(Instruction::get_cb_instruction(&0x7C), (Instruction::Bit(7, BitwiseSource::H), 1));
    assert_eq!(
        Instruction::get_cb_instruction(&0x46),
        (Instruction::Bit(0, BitwiseSource::HLAddr), 2)
    );
    assert_eq!(
        Instruction::get_cb_instruction(&0x86),
        (Instruction::ResetBit(0, BitwiseSource::HLAddr), 3)
    );
    assert_eq!(
        Instruction::get_cb_instruction(&0xFF),
        (Instruction::SetBit(7, BitwiseSource::A), 1)
    );
}

#[test]
fn test_mnemonics() {
    assert_eq!(Instruction::Nop.mnemonic(), "NOP");
    assert_eq!(Instruction::Add(AddTarget::A, AddSource::B).mnemonic(), "ADD A, B");
    assert_eq!(
        Instruction::Load(LoadTarget::HLAddrInc, LoadSource::A).mnemonic(),
        "LD HLAddrInc, A"
    );
    assert_eq!(Instruction::JumpRelative(JumpCondition::NZ).mnemonic(), "JR NZ, e");
    assert_eq!(Instruction::Jump(JumpCondition::Always).mnemonic(), "JP None nn");
    assert_eq!(Instruction::Restart(0x38).mnemonic(), "RST 0x38");
    assert_eq!(Instruction::Restart(0).mnemonic(), "RST 0x0");
    assert_eq!(Instruction::Bit(7, BitwiseSource::HLAddr).mnemonic(), "BIT 0x7 HLAddr");
    assert_eq!(Instruction::Illegal(0xD3).mnemonic(), "ILLEGAL 0xd3");
}

#[test]
fn test_interrupt_masks_and_vectors() {
    let all = [
        (Interrupt::VBlank, 0x01, 0x40),
        (Interrupt::LCD, 0x02, 0x48),
        (Interrupt::Timer, 0x04, 0x50),
        (Interrupt::Serial, 0x08, 0x58),
        (Interrupt::Joypad, 0x10, 0x60),
    ];
    for (interrupt, mask, vector) in all {
        assert_eq!(interrupt.mask(), mask);
        assert_eq!(interrupt.vector(), vector);
    }
    assert_eq!(Flag::Z.mask(), 0x80);
    assert_eq!(Flag::N.mask(), 0x40);
    assert_eq!(Flag::H.mask(), 0x20);
    assert_eq!(Flag::C.mask(), 0x10);
}

#[test]
fn test_register_pairs_and_flag_nibble() {
    let mut register = Register::new();
    register.set_bc(0x1234);
    register.set_de(0xABCD);
    register.set_hl(0xFFFF);
    assert_eq!((register.get_b(), register.get_c()), (0x12, 0x34));
    assert_eq!((register.get_d(), register.get_e()), (0xAB, 0xCD));
    assert_eq!(register.get_hl(), 0xFFFF);
    register.set_b(0x56);
    assert_eq!(register.get_bc(), 0x5634);
    register.set_l(0x01);
    assert_eq!(register.get_hl(), 0xFF01);
    register.set_af(0x12FF);
    assert_eq!(register.get_af(), 0x12F0);
    assert_eq!(register.get_a(), 0x12);
    register.set_f(0x0F);
    assert_eq!(register.get_f(), 0x00);
    register.set_f(0xA5);
    assert_eq!(register.get_f(), 0xA0);
    register.set_a(0x99);
    assert_eq!(register.get_af(), 0x99A0);
    for value in 0..=255u8 {
        register.set_f(value);
        assert_eq!(register.get_f(), value & 0xF0);
        assert_eq!(register.get_f() & 0x0F, 0);
    }
}

#[test]
fn test_alu_additions_and_subtractions() {
    let sum = add_bytes(0x3A, 0xC6, false);
    assert_eq!((sum.value, sum.zero, sum.subtract, sum.half_carry, sum.carry), (0, true, false, true, true));
    let sum = add_bytes(0xE1, 0x0F, true);
    assert_eq!((sum.value, sum.zero, sum.half_carry, sum.carry), (0xF1, false, true, false));
    let sum = add_bytes(0xFF, 0xFF, true);
    assert_eq!((sum.value, sum.half_carry, sum.carry), (0xFF, true, true));
    let difference = subtract_bytes(0x3E, 0x3E, false);
    assert_eq!(
        (difference.value, difference.zero, difference.subtract, difference.half_carry, difference.carry),
        (0, true, true, false, false)
    );
    let difference = subtract_bytes(0x3E, 0x0F, false);
    assert_eq!((difference.value, difference.half_carry, difference.carry), (0x2F, true, false));
    let difference = subtract_bytes(0x3B, 0x4F, true);
    assert_eq!((difference.value, difference.half_carry, difference.carry), (0xEB, true, true));
    let difference = subtract_bytes(0x10, 0x0F, true);
    assert_eq!((difference.value, difference.zero, difference.half_carry, difference.carry), (0, true, true, false));
    assert_eq!(add_words(0x8A23, 0x0605), (0x9028, true, false));
    assert_eq!(add_words(0x8A23, 0x8A23), (0x1446, true, true));
    assert_eq!(add_offset(0xFFF8, 0x02), (0xFFFA, false, false));
    assert_eq!(add_offset(0x0000, 0xFF), (0xFFFF, false, false));
    assert_eq!(add_offset(0x00FF, 0x01), (0x0100, true, true));
    assert_eq!(add_offset(0x0001, 0xFF), (0x0000, true, true));
}

#[test]
fn test_alu_rotations_and_swap() {
    assert_eq!(rotate_byte(RotateKind::LeftCircular, 0x85, false), (0x0B, true));
    assert_eq!(rotate_byte(RotateKind::Left, 0x80, false), (0x00, true));
    assert_eq!(rotate_byte(RotateKind::Left, 0x11, true), (0x23, false));
    assert_eq!(rotate_byte(RotateKind::RightCircular, 0x01, false), (0x80, true));
    assert_eq!(rotate_byte(RotateKind::Right, 0x01, false), (0x00, true));
    assert_eq!(rotate_byte(RotateKind::Right, 0x8A, true), (0xC5, false));
    assert_eq!(rotate_byte(RotateKind::ShiftLeft, 0xFF, false), (0xFE, true));
    assert_eq!(rotate_byte(RotateKind::ShiftRightArithmetic, 0x8A, false), (0xC5, false));
    assert_eq!(rotate_byte(RotateKind::ShiftRightArithmetic, 0x01, false), (0x00, true));
    assert_eq!(rotate_byte(RotateKind::ShiftRightLogical, 0xFF, false), (0x7F, true));
    assert_eq!(swap_nibbles(0xF1), 0x1F);
    assert_eq!(swap_nibbles(0x00), 0x00);
}

#[test]
fn test_decimal_adjust_table() {
    // 0x45 + 0x38 = 0x7D, adjusted to 0x83.
    assert_eq!(decimal_adjust(0x7D, false, false, false), (0x83, false));
    // 0x99 + 0x01 = 0x9A, adjusted to 0x00 with carry.
    assert_eq!(decimal_adjust(0x9A, false, false, false), (0x00, true));
    // 0x19 + 0x28 = 0x41 with half carry, adjusted to 0x47.
    assert_eq!(decimal_adjust(0x41, false, true, false), (0x47, false));
    // 0x83 - 0x38 = 0x4B with half borrow, adjusted to 0x45.
    assert_eq!(decimal_adjust(0x4B, true, true, false), (0x45, false));
    // 0x10 - 0x20 = 0xF0 with borrow, adjusted to 0x90 with carry.
    assert_eq!(decimal_adjust(0xF0, true, false, true), (0x90, true));
    assert_eq!(decimal_adjust(0x00, false, false, false), (0x00, false));
}

#[test]
fn test_eight_bit_arithmetic_instructions() {
    // LD A,0x3C; ADD A,0xC4; ADC A,0x00; SUB 0x01; SBC A,0x00; AND 0x0F; OR 0xF0; XOR 0xFF; CP 0x00
    let mut cpu = machine(&[
        0x3E, 0x3C, 0xC6, 0xC4, 0xCE, 0x00, 0xD6, 0x01, 0xDE, 0x00, 0xE6, 0x0F, 0xF6, 0xF0, 0xEE,
        0xFF, 0xFE, 0x00,
    ]);
    assert_eq!(run_one(&mut cpu), 2);
    assert_eq!(cpu.register.get_a(), 0x3C);
    assert_eq!(run_one(&mut cpu), 2);
    assert_eq!(cpu.register.get_a(), 0x00);
    assert_eq!(flags(&cpu), (true, false, true, true));
    run_one(&mut cpu);
    assert_eq!(cpu.register.get_a(), 0x01);
    assert_eq!(flags(&cpu), (false, false, false, false));
    run_one(&mut cpu);
    assert_eq!(cpu.register.get_a(), 0x00);
    assert_eq!(flags(&cpu), (true, true, false, false));
    run_one(&mut cpu);
    assert_eq!(cpu.register.get_a(), 0x00);
    run_one(&mut cpu);
    assert_eq!(cpu.register.get_a(), 0x00);
    assert_eq!(flags(&cpu), (true, false, true, false));
    run_one(&mut cpu);
    assert_eq!(cpu.register.get_a(), 0xF0);
    assert_eq!(flags(&cpu), (false, false, false, false));
    run_one(&mut cpu);
    assert_eq!(cpu.register.get_a(), 0x0F);
    run_one(&mut cpu);
    assert_eq!(cpu.register.get_a(), 0x0F);
    assert_eq!(flags(&cpu), (false, true, false, false));
    assert_eq!(cpu.program_counter, 0xC012);
}

#[test]
fn test_compare_sets_borrow_flags() {
    // LD A,0x10; CP 0x20; CP 0x10; CP 0x01
    let mut cpu = machine(&[0x3E, 0x10, 0xFE, 0x20, 0xFE, 0x10, 0xFE, 0x01]);
    run_one(&mut cpu);
    run_one(&mut cpu);
    assert_eq!(flags(&cpu), (false, true, false, true));
    run_one(&mut cpu);
    assert_eq!(flags(&cpu), (true, true, false, false));
    run_one(&mut cpu);
    assert_eq!(flags(&cpu), (false, true, true, false));
    assert_eq!(cpu.register.get_a(), 0x10);
}

#[test]
fn test_increment_and_decrement_keep_carry() {
    // SCF; LD B,0xFF; INC B; DEC B; LD HL,0xC100; INC (HL); DEC (HL); INC BC; DEC DE
    let mut cpu = machine(&[0x37, 0x06, 0xFF, 0x04, 0x05, 0x21, 0x00, 0xC1, 0x34, 0x35, 0x03, 0x1B]);
    run_one(&mut cpu);
    run_one(&mut cpu);
    assert_eq!(run_one(&mut cpu), 1);
    assert_eq!(cpu.register.get_b(), 0x00);
    assert_eq!(flags(&cpu), (true, false, true, true));
    run_one(&mut cpu);
    assert_eq!(cpu.register.get_b(), 0xFF);
    assert_eq!(flags(&cpu), (false, true, true, true));
    assert_eq!(run_one(&mut cpu), 3);
    assert_eq!(run_one(&mut cpu), 3);
    assert_eq!(cpu.read(&0xC100), 1);
    assert_eq!(flags(&cpu), (false, false, false, true));
    assert_eq!(run_one(&mut cpu), 3);
    assert_eq!(cpu.read(&0xC100), 0);
    assert_eq!(flags(&cpu), (true, true, false, true));
    let before = flags(&cpu);
    cpu.register.set_bc(0xFFFF);
    cpu.register.set_de(0x0000);
    assert_eq!(run_one(&mut cpu), 2);
    assert_eq!(cpu.register.get_bc(), 0x0000);
    assert_eq!(run_one(&mut cpu), 2);
    assert_eq!(cpu.register.get_de(), 0xFFFF);
    assert_eq!(flags(&cpu), before);
}

#[test]
fn test_sixteen_bit_additions() {
    // ADD HL,BC; ADD SP,-1; LD HL,SP+1
    let mut cpu = machine(&[0x09, 0xE8, 0xFF, 0xF8, 0x01]);
    cpu.register.set_hl(0x0FFF);
    cpu.register.set_bc(0x0001);
    cpu.register.set_f(0x80);
    assert_eq!(run_one(&mut cpu), 2);
    assert_eq!(cpu.register.get_hl(), 0x1000);
    assert_eq!(flags(&cpu), (true, false, true, false));
    cpu.stack_pointer = 0x0100;
    assert_eq!(run_one(&mut cpu), 4);
    assert_eq!(cpu.stack_pointer, 0x00FF);
    assert_eq!(flags(&cpu), (false, false, false, false));
    assert_eq!(run_one(&mut cpu), 3);
    assert_eq!(cpu.register.get_hl(), 0x0100);
    assert_eq!(cpu.stack_pointer, 0x00FF);
    assert_eq!(flags(&cpu), (false, false, true, true));
}

#[test]
fn test_loads_between_registers_and_memory() {
    // LD BC,0xC200; LD A,0x5A; LD (BC),A; LD HL,0xC200; LD D,(HL); LD (HL+),A; LD (HL-),A;
    // LD A,(HL+); LD (0xC300),A; LD A,(0xC300); LD SP,HL; LD (0xC400),SP
    let mut cpu = machine(&[
        0x01, 0x00, 0xC2, 0x3E, 0x5A, 0x02, 0x21, 0x00, 0xC2, 0x56, 0x22, 0x32, 0x2A, 0xEA, 0x00,
        0xC3, 0xFA, 0x00, 0xC3, 0xF9, 0x08, 0x00, 0xC4,
    ]);
    assert_eq!(run_one(&mut cpu), 3);
    assert_eq!(cpu.register.get_bc(), 0xC200);
    run_one(&mut cpu);
    assert_eq!(run_one(&mut cpu), 2);
    assert_eq!(cpu.read(&0xC200), 0x5A);
    run_one(&mut cpu);
    assert_eq!(run_one(&mut cpu), 2);
    assert_eq!(cpu.register.get_d(), 0x5A);
    run_one(&mut cpu);
    assert_eq!(cpu.register.get_hl(), 0xC201);
    run_one(&mut cpu);
    assert_eq!(cpu.read(&0xC201), 0x5A);
    assert_eq!(cpu.register.get_hl(), 0xC200);
    run_one(&mut cpu);
    assert_eq!(cpu.register.get_hl(), 0xC201);
    assert_eq!(run_one(&mut cpu), 4);
    assert_eq!(cpu.read(&0xC300), 0x5A);
    cpu.register.set_a(0);
    assert_eq!(run_one(&mut cpu), 4);
    assert_eq!(cpu.register.get_a(), 0x5A);
    assert_eq!(run_one(&mut cpu), 2);
    assert_eq!(cpu.stack_pointer, 0xC201);
    assert_eq!(run_one(&mut cpu), 5);
    assert_eq!(cpu.read(&0xC400), 0x01);
    assert_eq!(cpu.read(&0xC401), 0xC2);
    assert_eq!(cpu.program_counter, 0xC017);
}

#[test]
fn test_high_page_loads() {
    // LD A,0x77; LDH (0x80),A; LD C,0x81; LD (C),A; LD A,0; LDH A,(0x81); LD A,0; LD A,(C)
    let mut cpu = machine(&[
        0x3E, 0x77, 0xE0, 0x80, 0x0E, 0x81, 0xE2, 0x3E, 0x00, 0xF0, 0x81, 0x3E, 0x00, 0xF2,
    ]);
    run_one(&mut cpu);
    assert_eq!(run_one(&mut cpu), 3);
    assert_eq!(cpu.read(&0xFF80), 0x77);
    run_one(&mut cpu);
    assert_eq!(run_one(&mut cpu), 2);
    assert_eq!(cpu.read(&0xFF81), 0x77);
    run_one(&mut cpu);
    assert_eq!(run_one(&mut cpu), 3);
    assert_eq!(cpu.register.get_a(), 0x77);
    run_one(&mut cpu);
    assert_eq!(run_one(&mut cpu), 2);
    assert_eq!(cpu.register.get_a(), 0x77);
}

#[test]
fn test_accumulator_rotates_clear_zero() {
    // RLCA; RLA; RRCA; RRA
    let mut cpu = machine(&[0x07, 0x17, 0x0F, 0x1F]);
    cpu.register.set_a(0x80);
    run_one(&mut cpu);
    assert_eq!(cpu.register.get_a(), 0x01);
    assert_eq!(flags(&cpu), (false, false, false, true));
    cpu.register.set_a(0x80);
    cpu.register.set_f(0x00);
    run_one(&mut cpu);
    assert_eq!(cpu.register.get_a(), 0x00);
    assert_eq!(flags(&cpu), (false, false, false, true));
    cpu.register.set_a(0x01);
    run_one(&mut cpu);
    assert_eq!(cpu.register.get_a(), 0x80);
    assert_eq!(flags(&cpu), (false, false, false, true));
    cpu.register.set_a(0x01);
    cpu.register.set_f(0x00);
    run_one(&mut cpu);
    assert_eq!(cpu.register.get_a(), 0x00);
    assert_eq!(flags(&cpu), (false, false, false, true));
}

#[test]
fn test_prefixed_instructions() {
    // RLC B; SLA C; SRA D; SRL E; SWAP A; BIT 7,H; SET 0,(HL); RES 0,(HL); BIT 0,(HL); RL B
    let mut cpu = machine(&[
        0xCB, 0x00, 0xCB, 0x21, 0xCB, 0x2A, 0xCB, 0x3B, 0xCB, 0x37, 0xCB, 0x7C, 0xCB, 0xC6, 0xCB,
        0x86, 0xCB, 0x46, 0xCB, 0x10,
    ]);
    cpu.register.set_b(0x00);
    assert_eq!(run_one(&mut cpu), 2);
    assert_eq!(cpu.register.get_b(), 0x00);
    assert_eq!(flags(&cpu), (true, false, false, false));
    cpu.register.set_c(0x80);
    run_one(&mut cpu);
    assert_eq!(cpu.register.get_c(), 0x00);
    assert_eq!(flags(&cpu), (true, false, false, true));
    cpu.register.set_d(0x81);
    run_one(&mut cpu);
    assert_eq!(cpu.register.get_d(), 0xC0);
    assert_eq!(flags(&cpu), (false, false, false, true));
    cpu.register.set_e(0x81);
    run_one(&mut cpu);
    assert_eq!(cpu.register.get_e(), 0x40);
    cpu.register.set_a(0x0F);
    run_one(&mut cpu);
    assert_eq!(cpu.register.get_a(), 0xF0);
    assert_eq!(flags(&cpu), (false, false, false, false));
    cpu.register.set_hl(0xC100);
    cpu.register.set_f(0x10);
    run_one(&mut cpu);
    assert_eq!(flags(&cpu), (false, false, true, true));
    assert_eq!(run_one(&mut cpu), 4);
    assert_eq!(cpu.read(&0xC100), 0x01);
    assert_eq!(flags(&cpu), (false, false, true, true));
    assert_eq!(run_one(&mut cpu), 4);
    assert_eq!(cpu.read(&0xC100), 0x00);
    assert_eq!(run_one(&mut cpu), 3);
    assert_eq!(flags(&cpu), (true, false, true, true));
    cpu.register.set_b(0x40);
    run_one(&mut cpu);
    assert_eq!(cpu.register.get_b(), 0x81);
    assert_eq!(flags(&cpu), (false, false, false, false));
}

#[test]
fn test_flag_instructions() {
    // CPL; SCF; CCF; CCF; DAA
    let mut cpu = machine(&[0x2F, 0x37, 0x3F, 0x3F, 0x27]);
    cpu.register.set_a(0x35);
    run_one(&mut cpu);
    assert_eq!(cpu.register.get_a(), 0xCA);
    assert_eq!(flags(&cpu), (false, true, true, false));
    cpu.register.set_f(0xE0);
    run_one(&mut cpu);
    assert_eq!(flags(&cpu), (true, false, false, true));
    run_one(&mut cpu);
    assert_eq!(flags(&cpu), (true, false, false, false));
    run_one(&mut cpu);
    assert_eq!(flags(&cpu), (true, false, false, true));
    cpu.register.set_a(0x9A);
    cpu.register.set_f(0x00);
    run_one(&mut cpu);
    assert_eq!(cpu.register.get_a(), 0x00);
    assert_eq!(flags(&cpu), (true, false, false, true));
}

#[test]
fn test_relative_jumps_and_their_cycles() {
    // JR +2; (skipped: NOP NOP); JR Z,+1 (not taken); JR NZ,-2 (taken)
    let mut cpu = machine(&[0x18, 0x02, 0x00, 0x00, 0x28, 0x01, 0x20, 0xFE]);
    assert_eq!(run_one(&mut cpu), 3);
    assert_eq!(cpu.program_counter, 0xC004);
    assert_eq!(run_one(&mut cpu), 2);
    assert_eq!(cpu.program_counter, 0xC006);
    assert_eq!(run_one(&mut cpu), 3);
    assert_eq!(cpu.program_counter, 0xC006);
}

#[test]
fn test_absolute_jumps_and_their_cycles() {
    // JP C,0xC100 (not taken); JP NC,0xC009 (taken); ...; at 0xC009: JP 0xC00F; at 0xC00F: JP HL
    let mut cpu = machine(&[
        0xDA, 0x00, 0xC1, 0xD2, 0x09, 0xC0, 0x00, 0x00, 0x00, 0xC3, 0x0F, 0xC0, 0x00, 0x00, 0x00,
        0xE9,
    ]);
    assert_eq!(run_one(&mut cpu), 3);
    assert_eq!(cpu.program_counter, 0xC003);
    assert_eq!(run_one(&mut cpu), 4);
    assert_eq!(cpu.program_counter, 0xC009);
    assert_eq!(run_one(&mut cpu), 4);
    assert_eq!(cpu.program_counter, 0xC00F);
    cpu.register.set_hl(0x1234);
    assert_eq!(run_one(&mut cpu), 1);
    assert_eq!(cpu.program_counter, 0x1234);
}

#[test]
fn test_calls_returns_and_restarts() {
    // CALL 0xC010; at 0xC010: RET; then CALL Z (not taken), CALL NZ,0xC020; at 0xC020: RET Z (not
    // taken), RET NZ (taken); then RST 0x28
    let mut program = vec![0u8; 0x30];
    program[0x00..0x03].copy_from_slice(&[0xCD, 0x10, 0xC0]);
    program[0x03..0x06].copy_from_slice(&[0xCC, 0x00, 0xC1]);
    program[0x06..0x09].copy_from_slice(&[0xC4, 0x20, 0xC0]);
    program[0x09] = 0xEF;
    program[0x10] = 0xC9;
    program[0x20] = 0xC8;
    program[0x21] = 0xC0;
    let mut cpu = machine(&program);
    cpu.stack_pointer = 0xD000;
    assert_eq!(run_one(&mut cpu), 6);
    assert_eq!(cpu.program_counter, 0xC010);
    assert_eq!(cpu.stack_pointer, 0xCFFE);
    assert_eq!(cpu.read(&0xCFFE), 0x03);
    assert_eq!(cpu.read(&0xCFFF), 0xC0);
    assert_eq!(run_one(&mut cpu), 4);
    assert_eq!(cpu.program_counter, 0xC003);
    assert_eq!(cpu.stack_pointer, 0xD000);
    assert_eq!(run_one(&mut cpu), 3);
    assert_eq!(cpu.program_counter, 0xC006);
    assert_eq!(run_one(&mut cpu), 6);
    assert_eq!(cpu.program_counter, 0xC020);
    assert_eq!(run_one(&mut cpu), 2);
    assert_eq!(cpu.program_counter, 0xC021);
    assert_eq!(run_one(&mut cpu), 5);
    assert_eq!(cpu.program_counter, 0xC009);
    assert_eq!(run_one(&mut cpu), 4);
    assert_eq!(cpu.program_counter, 0x0028);
    assert_eq!(cpu.read(&0xCFFE), 0x0A);
    assert_eq!(cpu.read(&0xCFFF), 0xC0);
}

#[test]
fn test_push_and_pop_mask_the_flag_nibble() {
    // PUSH BC; POP AF; PUSH AF; POP DE
    let mut cpu = machine(&[0xC5, 0xF1, 0xF5, 0xD1]);
    cpu.stack_pointer = 0xD000;
    cpu.register.set_bc(0x12FF);
    assert_eq!(run_one(&mut cpu), 4);
    assert_eq!(run_one(&mut cpu), 3);
    assert_eq!(cpu.register.get_af(), 0x12F0);
    assert_eq!(cpu.register.get_f() & 0x0F, 0);
    run_one(&mut cpu);
    run_one(&mut cpu);
    assert_eq!(cpu.register.get_de(), 0x12F0);
    assert_eq!(cpu.stack_pointer, 0xD000);
}

#[test]
fn test_stack_pointer_wraps() {
    let mut cpu = machine(&[0xC5, 0xC1]);
    cpu.stack_pointer = 0x0001;
    cpu.register.set_bc(0xBEEF);
    run_one(&mut cpu);
    assert_eq!(cpu.stack_pointer, 0xFFFF);
    assert_eq!(cpu.status, CpuStatus::Running);
    cpu.register.set_bc(0);
    run_one(&mut cpu);
    assert_eq!(cpu.stack_pointer, 0x0001);
}

#[test]
fn test_unassigned_opcode_freezes_the_processor() {
    let mut cpu = machine(&[0xD3, 0x00]);
    cpu.step();
    assert_eq!(cpu.status, CpuStatus::Errored);
    let pc = cpu.program_counter;
    cpu.step();
    cpu.step();
    assert_eq!(cpu.program_counter, pc);
    assert_eq!(cpu.status, CpuStatus::Errored);
}

#[test]
fn test_stop_and_halt() {
    let mut cpu = machine(&[0x76, 0x00, 0x10, 0x00, 0x00]);
    cpu.step();
    assert_eq!(cpu.status, CpuStatus::Halted);
    for _ in 0..10 {
        cpu.step();
    }
    assert_eq!(cpu.status, CpuStatus::Halted);
    assert_eq!(cpu.program_counter, 0xC001);
    cpu.write(&0xFFFF, 0x04);
    cpu.request_interrupt(Interrupt::Timer);
    cpu.step();
    assert_eq!(cpu.status, CpuStatus::Running);
    assert_eq!(cpu.program_counter, 0xC001);
    assert!(!cpu.ime);
    run_one(&mut cpu);
    assert_eq!(cpu.program_counter, 0xC002);
    run_one(&mut cpu);
    assert_eq!(cpu.status, CpuStatus::Stopped);
    assert_eq!(cpu.program_counter, 0xC004);
    cpu.step();
    assert_eq!(cpu.program_counter, 0xC004);
}

#[test]
fn test_interrupt_service_takes_lowest_bit_first() {
    let mut cpu = machine(&[0x00, 0x00]);
    cpu.stack_pointer = 0xD000;
    cpu.write(&0xFF40, 0x00);
    cpu.write(&0xFFFF, 0x1F);
    cpu.request_interrupt(Interrupt::Joypad);
    cpu.request_interrupt(Interrupt::Timer);
    cpu.ime = true;
    cpu.step();
    assert_eq!(cpu.program_counter, 0x0050);
    assert!(!cpu.ime);
    assert_eq!(cpu.memory.get_interrupt_flags(), 0x10);
    assert_eq!(cpu.stack_pointer, 0xCFFE);
    assert_eq!(cpu.read(&0xCFFE), 0x00);
    assert_eq!(cpu.read(&0xCFFF), 0xC0);
    cpu.ime = true;
    cpu.step();
    assert_eq!(cpu.program_counter, 0x0060);
    assert_eq!(cpu.memory.get_interrupt_flags(), 0x00);
}

#[test]
fn test_interrupts_not_enabled_in_ie_are_left_pending() {
    let mut cpu = machine(&[0x00, 0x00]);
    cpu.write(&0xFF40, 0x00);
    cpu.write(&0xFFFF, 0x01);
    cpu.request_interrupt(Interrupt::LCD);
    cpu.ime = true;
    cpu.step();
    assert_eq!(cpu.program_counter, 0xC001);
    assert_eq!(cpu.memory.get_interrupt_flags(), 0x02);
}

#[test]
fn test_ei_takes_effect_after_its_own_step() {
    // EI; NOP; DI; EI; DI
    let mut cpu = machine(&[0xFB, 0x00, 0xF3, 0xFB, 0xF3]);
    cpu.step();
    assert!(!cpu.ime);
    assert!(cpu.ime_next);
    cpu.step();
    assert!(cpu.ime);
    assert!(!cpu.ime_next);
    cpu.step();
    assert!(!cpu.ime);
    cpu.step();
    assert!(cpu.ime_next);
    cpu.ime_next = false;
    cpu.ime = true;
    cpu.step();
    assert!(!cpu.ime && !cpu.ime_next);
}

#[test]
fn test_reti_enables_interrupts_at_once() {
    let mut cpu = machine(&[0xD9]);
    cpu.stack_pointer = 0xD000;
    cpu.write(&0xD000, 0x34);
    cpu.write(&0xD001, 0x12);
    assert_eq!(run_one(&mut cpu), 4);
    assert_eq!(cpu.program_counter, 0x1234);
    assert!(cpu.ime);
}

#[test]
fn test_reset_restores_boot_state_after_execution() {
    let mut cpu = machine(&[0x3E, 0x12, 0x06, 0x34, 0x76]);
    cpu.write(&0xFF42, 0x55);
    cpu.write(&0xFF47, 0x00);
    cpu.write(&0xFFFF, 0x1F);
    cpu.write(&0xFF24, 0x00);
    for _ in 0..2000 {
        cpu.step();
    }
    cpu.ime = true;
    cpu.reset();
    assert_eq!(cpu.status, CpuStatus::Running);
    assert_eq!(cpu.register.get_af(), 0x01B0);
    assert_eq!(cpu.register.get_bc(), 0x0013);
    assert_eq!(cpu.register.get_de(), 0x00D8);
    assert_eq!(cpu.register.get_hl(), 0x014D);
    assert_eq!(cpu.stack_pointer, 0xFFFE);
    assert_eq!(cpu.program_counter, 0x0100);
    assert!(!cpu.ime && !cpu.ime_next);
    assert_eq!(cpu.step_count, 0);
    assert_eq!(cpu.read(&0xFF40), 0x91);
    assert_eq!(cpu.read(&0xFF42), 0x00);
    assert_eq!(cpu.read(&0xFF44), 0x00);
    assert_eq!(cpu.read(&0xFF47), 0xFC);
    assert_eq!(cpu.read(&0xFF24), 0x77);
    assert_eq!(cpu.read(&0xFFFF), 0x00);
    assert_eq!(cpu.read(&0xFF41) & 0x03, 2);
    assert_eq!(cpu.memory.get_ppu().get_current_line(), 0);
    assert!(!cpu.is_frame_ready());
}

#[test]
fn test_every_step_advances_the_unit_by_four_dots() {
    let mut cpu = machine(&[0x00; 16]);
    cpu.write(&0xFF40, 0x80);
    for _ in 0..19 {
        cpu.step();
    }
    assert_eq!(cpu.memory.get_ppu().dots, 76);
    cpu.step();
    assert_eq!(cpu.memory.get_ppu().dots, 0);
    assert_eq!(cpu.read(&0xFF41) & 0x03, 3);
}

#[test]
fn test_scanline_after_114_machine_cycles() {
    let mut cpu = machine(&[]);
    cpu.reset();
    cpu.write(&0xFF40, 0x80);
    for _ in 0..114 {
        cpu.step();
    }
    assert_eq!(cpu.read(&0xFF44), 1);
    assert_eq!(cpu.read(&0xFF41) & 0x03, 2);
}

#[test]
fn test_lyc_match_sends_the_processor_to_the_lcd_vector() {
    // Work RAM is clear: the processor runs through NOPs.
    let mut cpu = machine(&[]);
    cpu.write(&0xFF40, 0x80);
    cpu.write(&0xFF41, 0x40);
    cpu.write(&0xFF45, 10);
    cpu.write(&0xFFFF, 0x02);
    cpu.ime = true;
    let mut steps = 0;
    while cpu.read(&0xFF44) != 10 {
        cpu.step();
        steps += 1;
        assert!(steps < 5000);
    }
    assert_eq!(steps, 1140);
    assert_eq!(cpu.program_counter, 0xC000 + 1140);
    cpu.step();
    assert_eq!(cpu.program_counter, 0x0048);
    assert_eq!(cpu.read(&0xFF41) & 0x04, 0x04);
    assert!(!cpu.ime);
}

#[test]
fn test_frame_ready_is_cleared_until_next_vblank() {
    let mut cpu = machine(&[]);
    cpu.reset();
    cpu.write(&0xFF40, 0x80);
    while !cpu.is_frame_ready() {
        cpu.step();
    }
    assert_eq!(cpu.read(&0xFF44), 144);
    let _ = cpu.get_framebuffer();
    assert!(!cpu.is_frame_ready());
    let mut steps = 0;
    while !cpu.is_frame_ready() {
        cpu.step();
        steps += 1;
        if cpu.read(&0xFF44) != 144 || steps < 114 {
            assert!(!cpu.is_frame_ready() || cpu.read(&0xFF44) == 144);
        }
    }
    assert_eq!(steps, 154 * 114);
}

#[test]
fn test_flag_nibble_is_clear_after_every_step() {
    let mut program = Vec::new();
    for opcode in [0x3Eu8, 0xFF, 0xC6, 0x01, 0xF5, 0xC1, 0xC5, 0xF1, 0x27, 0x3F, 0x2F, 0x37, 0x07] {
        program.push(opcode);
    }
    let mut cpu = machine(&program);
    cpu.stack_pointer = 0xD000;
    for _ in 0..40 {
        cpu.step();
        assert_eq!(cpu.register.get_f() & 0x0F, 0);
        assert_eq!(cpu.get_af() & 0x000F, 0);
    }
}

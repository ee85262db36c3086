//! What each instruction does to the machine.
use super::alu::{
    add16, add8, add_bytes, add_offset, add_signed, add_words, and8, and_bytes, bit_set,
    decimal_adjust, decimal_adjusted, or8, or_bytes, reset_bit, rotate_byte, rotated, set_bit,
    sub8, subtract_bytes, swap_nibbles, swapped, test_bit, with_bit, without_bit, xor8, xor_bytes,
    AluResult, RotateKind,
};
use super::instructions::{
    decode_cb, AddCarrySource, AddSource, AddTarget, AndSource, BitwiseSource, CompareSource,
    CpuStatus, DecrementTarget, IncrementTarget, Instruction, JumpCondition,
    LoadAccumulatorSource, LoadAccumulatorTarget, LoadSource, LoadTarget, Operand8, OrSource,
    PopTarget, PushTarget, SubtractCarrySource, SubtractSource, XOrSource,
};
use super::registers::Register;
use super::{moved, Cpu, CpuState};
use vstd::prelude::*;

verus! {

impl CpuState {
    /// The value of an eight-bit operand.
    pub open spec fn get8(self, operand: Operand8) -> u8 {
        match operand {
            Operand8::A => self.register.a,
            Operand8::B => self.register.b,
            Operand8::C => self.register.c,
            Operand8::D => self.register.d,
            Operand8::E => self.register.e,
            Operand8::H => self.register.h,
            Operand8::L => self.register.l,
            Operand8::HLAddr => self.read(self.register.hl()),
            Operand8::Immediate => self.immediate(),
        }
    }

    /// The machine after an eight-bit operand is read: an immediate operand
    /// moves the program counter past it.
    pub open spec fn after_get8(self, operand: Operand8) -> CpuState {
        if operand == Operand8::Immediate {
            self.skipped(1)
        } else {
            self
        }
    }

    /// The machine after a value is stored in an eight-bit operand. An
    /// immediate operand is no place to store in.
    #[verifier::opaque]
    pub open spec fn set8(self, operand: Operand8, value: u8) -> CpuState {
        match operand {
            Operand8::A => self.with_register(Register { a: value, ..self.register }),
            Operand8::B => self.with_register(Register { b: value, ..self.register }),
            Operand8::C => self.with_register(Register { c: value, ..self.register }),
            Operand8::D => self.with_register(Register { d: value, ..self.register }),
            Operand8::E => self.with_register(Register { e: value, ..self.register }),
            Operand8::H => self.with_register(Register { h: value, ..self.register }),
            Operand8::L => self.with_register(Register { l: value, ..self.register }),
            Operand8::HLAddr => self.written(self.register.hl(), value),
            Operand8::Immediate => self,
        }
    }

    /// The machine with the four flags set.
    pub open spec fn with_flags(
        self,
        zero: bool,
        subtract: bool,
        half_carry: bool,
        carry: bool,
    ) -> CpuState {
        self.with_register(Register { zero, subtract, half_carry, carry, ..self.register })
    }

    /// The machine with the value of a result in A and its flags in F.
    pub open spec fn with_result(self, result: AluResult) -> CpuState {
        self.with_register(
            Register {
                a: result.value,
                zero: result.zero,
                subtract: result.subtract,
                half_carry: result.half_carry,
                carry: result.carry,
                ..self.register
            },
        )
    }

    /// CP: the flags of `A - value`; A stays.
    #[verifier::opaque]
    pub open spec fn after_compare(self, source: CompareSource) -> CpuState {
        let result = sub8(self.register.a, self.get8(source.operand_spec()), false);
        self.after_get8(source.operand_spec()).with_flags(
            result.zero,
            result.subtract,
            result.half_carry,
            result.carry,
        )
    }

    /// XOR: `A ^ value`.
    #[verifier::opaque]
    pub open spec fn after_xor(self, source: XOrSource) -> CpuState {
        self.after_get8(source.operand_spec()).with_result(
            xor8(self.register.a, self.get8(source.operand_spec())),
        )
    }

    /// OR: `A | value`.
    #[verifier::opaque]
    pub open spec fn after_or(self, source: OrSource) -> CpuState {
        self.after_get8(source.operand_spec()).with_result(
            or8(self.register.a, self.get8(source.operand_spec())),
        )
    }

    /// AND: `A & value`.
    #[verifier::opaque]
    pub open spec fn after_and(self, source: AndSource) -> CpuState {
        self.after_get8(source.operand_spec()).with_result(
            and8(self.register.a, self.get8(source.operand_spec())),
        )
    }

    /// SUB: `A - value`.
    #[verifier::opaque]
    pub open spec fn after_sub(self, source: SubtractSource) -> CpuState {
        self.after_get8(source.operand_spec()).with_result(
            sub8(self.register.a, self.get8(source.operand_spec()), false),
        )
    }

    /// SBC: `A - value - C`.
    #[verifier::opaque]
    pub open spec fn after_sub_carry(self, source: SubtractCarrySource) -> CpuState {
        self.after_get8(source.operand_spec()).with_result(
            sub8(self.register.a, self.get8(source.operand_spec()), self.register.carry),
        )
    }

    /// ADC: `A + value + C`.
    #[verifier::opaque]
    pub open spec fn after_add_carry(self, source: AddCarrySource) -> CpuState {
        self.after_get8(source.operand_spec()).with_result(
            add8(self.register.a, self.get8(source.operand_spec()), self.register.carry),
        )
    }

    /// The value ADD takes from its source: an eight-bit source counts as a
    /// sixteen-bit value with a zero high byte.
    pub open spec fn add_value(self, source: AddSource) -> u16 {
        match source {
            AddSource::BC => self.register.bc(),
            AddSource::DE => self.register.de(),
            AddSource::HL => self.register.hl(),
            AddSource::SP => self.stack_pointer,
            AddSource::A => self.register.a as u16,
            AddSource::B => self.register.b as u16,
            AddSource::C => self.register.c as u16,
            AddSource::D => self.register.d as u16,
            AddSource::E => self.register.e as u16,
            AddSource::H => self.register.h as u16,
            AddSource::L => self.register.l as u16,
            AddSource::PC => self.immediate() as u16,
            AddSource::PCe => self.immediate() as u16,
            AddSource::HLAddr => self.read(self.register.hl()) as u16,
        }
    }

    /// ADD. Into A: `A + low byte`, all four flags. Into HL: sixteen-bit sum,
    /// Z untouched, N cleared, H and C from bits 11 and 15. Into SP: SP plus
    /// the low byte as a signed offset, Z and N cleared, H and C from bits 3
    /// and 7.
    #[verifier::opaque]
    pub open spec fn after_add(self, target: AddTarget, source: AddSource) -> CpuState {
        let value = self.add_value(source);
        let next = if source == AddSource::PC || source == AddSource::PCe {
            self.skipped(1)
        } else {
            self
        };
        match target {
            AddTarget::A => next.with_result(add8(self.register.a, (value % 256) as u8, false)),
            AddTarget::HL => next.with_register(
                Register {
                    subtract: false,
                    half_carry: add16(self.register.hl(), value).1,
                    carry: add16(self.register.hl(), value).2,
                    ..self.register.with_hl(add16(self.register.hl(), value).0)
                },
            ),
            AddTarget::SP => CpuState {
                stack_pointer: add_signed(self.stack_pointer, (value % 256) as u8).0,
                ..next.with_flags(
                    false,
                    false,
                    add_signed(self.stack_pointer, (value % 256) as u8).1,
                    add_signed(self.stack_pointer, (value % 256) as u8).2,
                )
            },
        }
    }

    /// The value a load takes from its source.
    #[verifier::opaque]
    pub open spec fn load_value(self, source: LoadSource) -> u16 {
        match source {
            LoadSource::PCAddr => self.read(self.immediate16()) as u16,
            LoadSource::HL => self.register.hl(),
            LoadSource::SPE => add_signed(self.stack_pointer, self.immediate()).0,
            LoadSource::BCAddr => self.read(self.register.bc()) as u16,
            LoadSource::DEAddr => self.read(self.register.de()) as u16,
            LoadSource::HLAddrInc => self.read(self.register.hl()) as u16,
            LoadSource::HLAddrDec => self.read(self.register.hl()) as u16,
            LoadSource::SP => self.stack_pointer,
            LoadSource::A => self.register.a as u16,
            LoadSource::PC => self.immediate() as u16,
            LoadSource::PC16 => self.immediate16(),
            LoadSource::B => self.register.b as u16,
            LoadSource::C => self.register.c as u16,
            LoadSource::D => self.register.d as u16,
            LoadSource::E => self.register.e as u16,
            LoadSource::H => self.register.h as u16,
            LoadSource::L => self.register.l as u16,
            LoadSource::HLAddr => self.read(self.register.hl()) as u16,
        }
    }

    /// The machine after a load has read its source: immediates move the
    /// program counter, the source at HL with increment or decrement moves
    /// HL, and SP plus offset sets the flags as ADD SP does.
    #[verifier::opaque]
    pub open spec fn after_load_source(self, source: LoadSource) -> CpuState {
        match source {
            LoadSource::PCAddr => self.skipped(2),
            LoadSource::PC16 => self.skipped(2),
            LoadSource::PC => self.skipped(1),
            LoadSource::SPE => self.skipped(1).with_flags(
                false,
                false,
                add_signed(self.stack_pointer, self.immediate()).1,
                add_signed(self.stack_pointer, self.immediate()).2,
            ),
            LoadSource::HLAddrInc => self.with_register(
                self.register.with_hl(moved(self.register.hl(), 1)),
            ),
            LoadSource::HLAddrDec => self.with_register(
                self.register.with_hl(moved(self.register.hl(), -1)),
            ),
            _ => self,
        }
    }

    /// The machine after a load has stored a value in its target: an
    /// eight-bit target takes the low byte.
    #[verifier::opaque]
    pub open spec fn stored(self, target: LoadTarget, value: u16) -> CpuState {
        let low = (value % 256) as u8;
        match target {
            LoadTarget::A => self.set8(Operand8::A, low),
            LoadTarget::B => self.set8(Operand8::B, low),
            LoadTarget::C => self.set8(Operand8::C, low),
            LoadTarget::D => self.set8(Operand8::D, low),
            LoadTarget::E => self.set8(Operand8::E, low),
            LoadTarget::H => self.set8(Operand8::H, low),
            LoadTarget::L => self.set8(Operand8::L, low),
            LoadTarget::HLAddr => self.set8(Operand8::HLAddr, low),
            LoadTarget::BC => self.with_register(self.register.with_bc(value)),
            LoadTarget::DE => self.with_register(self.register.with_de(value)),
            LoadTarget::HL => self.with_register(self.register.with_hl(value)),
            LoadTarget::SP => CpuState { stack_pointer: value, ..self },
            LoadTarget::BCAddr => self.written(self.register.bc(), low),
            LoadTarget::DEAddr => self.written(self.register.de(), low),
            LoadTarget::HLAddrInc => self.written(self.register.hl(), low).with_register(
                self.register.with_hl(moved(self.register.hl(), 1)),
            ),
            LoadTarget::HLAddrDec => self.written(self.register.hl(), low).with_register(
                self.register.with_hl(moved(self.register.hl(), -1)),
            ),
            LoadTarget::PCAddr => self.written(self.immediate16(), low).skipped(2),
            LoadTarget::PC16Addr => self.written(self.immediate16(), low).written(
                moved(self.immediate16(), 1),
                (value / 256) as u8,
            ).skipped(2),
        }
    }

    /// LD: the value of the source, stored in the target.
    #[verifier::opaque]
    pub open spec fn after_load(self, target: LoadTarget, source: LoadSource) -> CpuState {
        self.after_load_source(source).stored(target, self.load_value(source))
    }

    /// Address in the high page with the given low byte.
    pub open spec fn high_page(low: u8) -> u16 {
        (0xFF00 + low) as u16
    }

    /// LDH and LD with C: a load between A and the high page at 0xFF00.
    #[verifier::opaque]
    pub open spec fn after_load_accumulator(
        self,
        target: LoadAccumulatorTarget,
        source: LoadAccumulatorSource,
    ) -> CpuState {
        let value = match source {
            LoadAccumulatorSource::A => self.register.a,
            LoadAccumulatorSource::PCAddr => self.read(Self::high_page(self.immediate())),
            LoadAccumulatorSource::CAddr => self.read(Self::high_page(self.register.c)),
        };
        let next = if source == LoadAccumulatorSource::PCAddr {
            self.skipped(1)
        } else {
            self
        };
        match target {
            LoadAccumulatorTarget::PCAddr => next.written(
                Self::high_page(next.immediate()),
                value,
            ).skipped(1),
            LoadAccumulatorTarget::A => next.set8(Operand8::A, value),
            LoadAccumulatorTarget::CAddr => next.written(Self::high_page(next.register.c), value),
        }
    }

    /// INC of an eight-bit operand: Z and H from the sum, N cleared, C
    /// untouched.
    #[verifier::opaque]
    pub open spec fn incremented(self, operand: Operand8) -> CpuState {
        let result = add8(self.get8(operand), 1, false);
        self.set8(operand, result.value).with_flags(
            result.zero,
            false,
            result.half_carry,
            self.register.carry,
        )
    }

    /// DEC of an eight-bit operand: Z and H from the difference, N set, C
    /// untouched.
    #[verifier::opaque]
    pub open spec fn decremented(self, operand: Operand8) -> CpuState {
        let result = sub8(self.get8(operand), 1, false);
        self.set8(operand, result.value).with_flags(
            result.zero,
            true,
            result.half_carry,
            self.register.carry,
        )
    }

    /// INC: a register pair or SP moves by one without touching a flag.
    #[verifier::opaque]
    pub open spec fn after_increment(self, target: IncrementTarget) -> CpuState {
        match target {
            IncrementTarget::BC => self.with_register(
                self.register.with_bc(moved(self.register.bc(), 1)),
            ),
            IncrementTarget::DE => self.with_register(
                self.register.with_de(moved(self.register.de(), 1)),
            ),
            IncrementTarget::HL => self.with_register(
                self.register.with_hl(moved(self.register.hl(), 1)),
            ),
            IncrementTarget::SP => CpuState {
                stack_pointer: moved(self.stack_pointer, 1),
                ..self
            },
            IncrementTarget::A => self.incremented(Operand8::A),
            IncrementTarget::B => self.incremented(Operand8::B),
            IncrementTarget::C => self.incremented(Operand8::C),
            IncrementTarget::D => self.incremented(Operand8::D),
            IncrementTarget::E => self.incremented(Operand8::E),
            IncrementTarget::H => self.incremented(Operand8::H),
            IncrementTarget::L => self.incremented(Operand8::L),
            IncrementTarget::HLAddr => self.incremented(Operand8::HLAddr),
        }
    }

    /// DEC: a register pair or SP moves by one without touching a flag.
    #[verifier::opaque]
    pub open spec fn after_decrement(self, target: DecrementTarget) -> CpuState {
        match target {
            DecrementTarget::BC => self.with_register(
                self.register.with_bc(moved(self.register.bc(), -1)),
            ),
            DecrementTarget::DE => self.with_register(
                self.register.with_de(moved(self.register.de(), -1)),
            ),
            DecrementTarget::HL => self.with_register(
                self.register.with_hl(moved(self.register.hl(), -1)),
            ),
            DecrementTarget::SP => CpuState {
                stack_pointer: moved(self.stack_pointer, -1),
                ..self
            },
            DecrementTarget::A => self.decremented(Operand8::A),
            DecrementTarget::B => self.decremented(Operand8::B),
            DecrementTarget::C => self.decremented(Operand8::C),
            DecrementTarget::D => self.decremented(Operand8::D),
            DecrementTarget::E => self.decremented(Operand8::E),
            DecrementTarget::H => self.decremented(Operand8::H),
            DecrementTarget::L => self.decremented(Operand8::L),
            DecrementTarget::HLAddr => self.decremented(Operand8::HLAddr),
        }
    }

    /// A prefixed rotate or shift: Z from the result, N and H cleared, C the
    /// bit that left the byte.
    #[verifier::opaque]
    pub open spec fn after_rotate(self, source: BitwiseSource, kind: RotateKind) -> CpuState {
        let result = rotated(kind, self.get8(source.operand_spec()), self.register.carry);
        self.set8(source.operand_spec(), result.0).with_flags(
            result.0 == 0,
            false,
            false,
            result.1,
        )
    }

    /// RLCA, RLA, RRCA, RRA: a rotate of A that always clears Z.
    #[verifier::opaque]
    pub open spec fn after_rotate_accumulator(self, kind: RotateKind) -> CpuState {
        let result = rotated(kind, self.register.a, self.register.carry);
        self.set8(Operand8::A, result.0).with_flags(false, false, false, result.1)
    }

    /// SWAP: the nibbles exchanged, Z from the result, the other flags
    /// cleared.
    #[verifier::opaque]
    pub open spec fn after_swap(self, source: BitwiseSource) -> CpuState {
        let value = swapped(self.get8(source.operand_spec()));
        self.set8(source.operand_spec(), value).with_flags(value == 0, false, false, false)
    }

    /// BIT: Z set if the bit is clear, N cleared, H set, C untouched.
    #[verifier::opaque]
    pub open spec fn after_bit(self, bit: u8, source: BitwiseSource) -> CpuState {
        self.with_flags(
            !bit_set(self.get8(source.operand_spec()), bit),
            false,
            true,
            self.register.carry,
        )
    }

    /// SET: the bit set, no flag touched.
    #[verifier::opaque]
    pub open spec fn after_set_bit(self, bit: u8, source: BitwiseSource) -> CpuState {
        self.set8(source.operand_spec(), with_bit(self.get8(source.operand_spec()), bit))
    }

    /// RES: the bit cleared, no flag touched.
    #[verifier::opaque]
    pub open spec fn after_reset_bit(self, bit: u8, source: BitwiseSource) -> CpuState {
        self.set8(source.operand_spec(), without_bit(self.get8(source.operand_spec()), bit))
    }

    /// The machine with an instruction to execute after `cycles` more cycles.
    pub open spec fn deferred(self, instruction: Instruction, cycles: u8) -> CpuState {
        CpuState { instruction, step_count: cycles, ..self }
    }

    /// JR. Unconditional: the program counter moves past the offset byte and
    /// then by the offset. Conditional: a branch taken becomes the
    /// unconditional jump one cycle later; one not taken skips the offset.
    #[verifier::opaque]
    pub open spec fn after_jump_relative(self, condition: JumpCondition) -> CpuState {
        if condition == JumpCondition::Always {
            self.at(add_signed(moved(self.program_counter, 1), self.immediate()).0)
        } else if self.holds(condition) {
            self.deferred(Instruction::JumpRelative(JumpCondition::Always), 1)
        } else {
            self.skipped(1)
        }
    }

    /// JP. Unconditional: the program counter takes the address that follows.
    /// Conditional: a branch taken becomes the unconditional jump one cycle
    /// later; one not taken skips the address.
    #[verifier::opaque]
    pub open spec fn after_jump(self, condition: JumpCondition) -> CpuState {
        if condition == JumpCondition::Always {
            self.at(self.immediate16())
        } else if self.holds(condition) {
            self.deferred(Instruction::Jump(JumpCondition::Always), 1)
        } else {
            self.skipped(2)
        }
    }

    /// RST, and the end of CALL: the program counter is pushed and set.
    #[verifier::opaque]
    pub open spec fn after_restart(self, addr: u16) -> CpuState {
        self.pushed(self.program_counter).at(addr)
    }

    /// CALL. Unconditional: the address of the next instruction is pushed and
    /// the program counter takes the address that follows. Conditional: a
    /// branch taken becomes the unconditional call three cycles later; one
    /// not taken skips the address.
    #[verifier::opaque]
    pub open spec fn after_call(self, condition: JumpCondition) -> CpuState {
        if condition == JumpCondition::Always {
            self.skipped(2).after_restart(self.immediate16())
        } else if self.holds(condition) {
            self.deferred(Instruction::Call(JumpCondition::Always), 3)
        } else {
            self.skipped(2)
        }
    }

    /// RET. Unconditional: the program counter is popped. Conditional: a
    /// branch taken becomes the unconditional return three cycles later; one
    /// not taken does nothing.
    #[verifier::opaque]
    pub open spec fn after_ret(self, condition: JumpCondition) -> CpuState {
        if condition == JumpCondition::Always {
            self.popped().at(self.top())
        } else if self.holds(condition) {
            self.deferred(Instruction::Return(JumpCondition::Always), 3)
        } else {
            self
        }
    }

    /// PUSH: a register pair goes onto the stack.
    #[verifier::opaque]
    pub open spec fn after_push(self, target: PushTarget) -> CpuState {
        self.pushed(
            match target {
                PushTarget::BC => self.register.bc(),
                PushTarget::DE => self.register.de(),
                PushTarget::HL => self.register.hl(),
                PushTarget::AF => self.register.af(),
            },
        )
    }

    /// POP: a register pair comes off the stack. Of F only the four flags are
    /// taken.
    #[verifier::opaque]
    pub open spec fn after_pop(self, target: PopTarget) -> CpuState {
        self.popped().with_register(
            match target {
                PopTarget::BC => self.register.with_bc(self.top()),
                PopTarget::DE => self.register.with_de(self.top()),
                PopTarget::HL => self.register.with_hl(self.top()),
                PopTarget::AF => self.register.with_af(self.top()),
            },
        )
    }

    /// CPL: A inverted, N and H set.
    #[verifier::opaque]
    pub open spec fn after_complement_accumulator(self) -> CpuState {
        self.with_register(
            Register { a: !self.register.a, subtract: true, half_carry: true, ..self.register },
        )
    }

    /// CCF: C inverted, N and H cleared.
    #[verifier::opaque]
    pub open spec fn after_complement_carry_flag(self) -> CpuState {
        self.with_flags(self.register.zero, false, false, !self.register.carry)
    }

    /// SCF: C set, N and H cleared.
    #[verifier::opaque]
    pub open spec fn after_set_carry_flag(self) -> CpuState {
        self.with_flags(self.register.zero, false, false, true)
    }

    /// DAA: A adjusted to binary-coded decimal, Z from the result, H cleared,
    /// C from the adjustment.
    #[verifier::opaque]
    pub open spec fn after_decimal_adjust(self) -> CpuState {
        let result = decimal_adjusted(
            self.register.a,
            self.register.subtract,
            self.register.half_carry,
            self.register.carry,
        );
        self.set8(Operand8::A, result.0).with_flags(
            result.0 == 0,
            self.register.subtract,
            false,
            result.1,
        )
    }

    /// The 0xCB prefix: the byte that follows is decoded as a prefixed
    /// instruction, which is executed after the cycles it takes.
    #[verifier::opaque]
    pub open spec fn after_prefix(self) -> CpuState {
        self.skipped(1).deferred(decode_cb(self.immediate()).0, decode_cb(self.immediate()).1)
    }

    /// An instruction that changes the status of the processor, the interrupt
    /// latches or single flags, or the prefix; any other leaves the machine as
    /// it is.
    #[verifier::opaque]
    pub open spec fn after_control(self, instruction: Instruction) -> CpuState {
        match instruction {
            Instruction::Stop => CpuState { status: CpuStatus::Stopped, ..self.skipped(1) },
            Instruction::Halt => CpuState { status: CpuStatus::Halted, ..self },
            Instruction::DisableInterrupts => CpuState { ime: false, ime_next: false, ..self },
            Instruction::EnableInterrupts => CpuState { ime_next: true, ..self },
            Instruction::DecimalAdjustAccumulator => self.after_decimal_adjust(),
            Instruction::SetCarryFlag => self.after_set_carry_flag(),
            Instruction::ComplementAccumulator => self.after_complement_accumulator(),
            Instruction::ComplementCarryFlag => self.after_complement_carry_flag(),
            Instruction::CB => self.after_prefix(),
            Instruction::Illegal(_) => CpuState { status: CpuStatus::Errored, ..self },
            _ => self,
        }
    }

    /// An arithmetic or logic instruction; any other leaves the machine as it
    /// is.
    #[verifier::opaque]
    pub open spec fn after_arithmetic(self, instruction: Instruction) -> CpuState {
        match instruction {
            Instruction::Add(target, source) => self.after_add(target, source),
            Instruction::AddCarry(source) => self.after_add_carry(source),
            Instruction::Subtract(source) => self.after_sub(source),
            Instruction::SubtractCarry(source) => self.after_sub_carry(source),
            Instruction::And(source) => self.after_and(source),
            Instruction::Or(source) => self.after_or(source),
            Instruction::XOr(source) => self.after_xor(source),
            Instruction::Compare(source) => self.after_compare(source),
            Instruction::Increment(target) => self.after_increment(target),
            Instruction::Decrement(target) => self.after_decrement(target),
            _ => self,
        }
    }

    /// A load, a push or a pop; any other instruction leaves the machine as it
    /// is.
    #[verifier::opaque]
    pub open spec fn after_transfer(self, instruction: Instruction) -> CpuState {
        match instruction {
            Instruction::Load(target, source) => self.after_load(target, source),
            Instruction::LoadAccumulator(target, source) => self.after_load_accumulator(target, source),
            Instruction::Pop(target) => self.after_pop(target),
            Instruction::Push(target) => self.after_push(target),
            _ => self,
        }
    }

    /// A prefixed rotate, shift or swap; any other instruction leaves the machine
    /// as it is.
    #[verifier::opaque]
    pub open spec fn after_rotation(self, instruction: Instruction) -> CpuState {
        match instruction {
            Instruction::RotateLeftCircular(source) => self.after_rotate(source, RotateKind::LeftCircular),
            Instruction::RotateLeft(source) => self.after_rotate(source, RotateKind::Left),
            Instruction::RotateRightCircular(source) => self.after_rotate(source, RotateKind::RightCircular),
            Instruction::RotateRight(source) => self.after_rotate(source, RotateKind::Right),
            Instruction::ShiftRightArithmetic(source) => self.after_rotate(
                source,
                RotateKind::ShiftRightArithmetic,
            ),
            Instruction::ShiftRightLogical(source) => self.after_rotate(
                source,
                RotateKind::ShiftRightLogical,
            ),
            Instruction::ShiftLeftArithmetic(source) => self.after_rotate(source, RotateKind::ShiftLeft),
            Instruction::Swap(source) => self.after_swap(source),
            _ => self,
        }
    }

    /// A bit instruction or a rotate of the accumulator; any other instruction
    /// leaves the machine as it is.
    #[verifier::opaque]
    pub open spec fn after_bitwise(self, instruction: Instruction) -> CpuState {
        match instruction {
            Instruction::Bit(bit, source) => self.after_bit(bit, source),
            Instruction::SetBit(bit, source) => self.after_set_bit(bit, source),
            Instruction::ResetBit(bit, source) => self.after_reset_bit(bit, source),
            Instruction::RotateLeftCircularAccumulator => self.after_rotate_accumulator(
                RotateKind::LeftCircular,
            ),
            Instruction::RotateLeftAccumulator => self.after_rotate_accumulator(RotateKind::Left),
            Instruction::RotateRightCircularAccumulator => self.after_rotate_accumulator(
                RotateKind::RightCircular,
            ),
            Instruction::RotateRightAccumulator => self.after_rotate_accumulator(RotateKind::Right),
            _ => self,
        }
    }

    /// A jump, a call, a return or a restart; any other instruction leaves the
    /// machine as it is.
    #[verifier::opaque]
    pub open spec fn after_branch(self, instruction: Instruction) -> CpuState {
        match instruction {
            Instruction::JumpRelative(condition) => self.after_jump_relative(condition),
            Instruction::Jump(condition) => self.after_jump(condition),
            Instruction::JumpHL => self.at(self.register.hl()),
            Instruction::Call(condition) => self.after_call(condition),
            Instruction::Return(condition) => self.after_ret(condition),
            Instruction::ReturnInterrupt => CpuState { ime: true, ..self.after_ret(JumpCondition::Always) },
            Instruction::Restart(addr) => self.after_restart(addr),
            _ => self,
        }
    }

    /// The machine after an instruction has taken effect: the count of cycles
    /// is cleared, and then the instruction does what its kind does.
    pub open spec fn after_instruction(self, instruction: Instruction) -> CpuState {
        let start = CpuState { step_count: 0, ..self };
        if is_control(instruction) {
            start.after_control(instruction)
        } else if is_arithmetic(instruction) {
            start.after_arithmetic(instruction)
        } else if is_transfer(instruction) {
            start.after_transfer(instruction)
        } else if is_rotation(instruction) {
            start.after_rotation(instruction)
        } else if is_bitwise(instruction) {
            start.after_bitwise(instruction)
        } else {
            start.after_branch(instruction)
        }
    }
}

/// A sixteen-bit value moved up or down by one, wrapping around.
pub fn step_word(value: u16, up: bool) -> (r: u16)
    ensures
        r == moved(value, if up { 1 } else { -1 }),
{
    if up {
        value.wrapping_add(1)
    } else {
        value.wrapping_sub(1)
    }
}

impl Cpu {
    /// Reads an eight-bit operand.
    pub fn operand_value(&mut self, operand: Operand8) -> (r: u8)
        ensures
            r == old(self)@.get8(operand),
            final(self)@ == old(self)@.after_get8(operand),
    {
        match operand {
            Operand8::A => self.register.get_a(),
            Operand8::B => self.register.get_b(),
            Operand8::C => self.register.get_c(),
            Operand8::D => self.register.get_d(),
            Operand8::E => self.register.get_e(),
            Operand8::H => self.register.get_h(),
            Operand8::L => self.register.get_l(),
            Operand8::HLAddr => self.read(&self.register.get_hl()),
            Operand8::Immediate => self.fetch(),
        }
    }

    /// Stores a value in an eight-bit operand.
    pub fn store_operand(&mut self, operand: Operand8, value: u8)
        ensures
            final(self)@ == old(self)@.set8(operand, value),
            old(self)@.steady(final(self)@),
    {
        proof {
            reveal(CpuState::set8);
        }
        match operand {
            Operand8::A => self.register.set_a(value),
            Operand8::B => self.register.set_b(value),
            Operand8::C => self.register.set_c(value),
            Operand8::D => self.register.set_d(value),
            Operand8::E => self.register.set_e(value),
            Operand8::H => self.register.set_h(value),
            Operand8::L => self.register.set_l(value),
            Operand8::HLAddr => {
                let hl = self.register.get_hl();
                self.write(&hl, value);
            },
            Operand8::Immediate => {},
        }
    }

    /// Sets the four flags.
    pub fn set_flags(&mut self, zero: bool, subtract: bool, half_carry: bool, carry: bool)
        ensures
            final(self)@ == old(self)@.with_flags(zero, subtract, half_carry, carry),
    {
        self.register.zero = zero;
        self.register.subtract = subtract;
        self.register.half_carry = half_carry;
        self.register.carry = carry;
    }

    /// Puts the value of a result in A and its flags in F.
    pub fn apply(&mut self, result: AluResult)
        ensures
            final(self)@ == old(self)@.with_result(result),
    {
        self.register.a = result.value;
        self.set_flags(result.zero, result.subtract, result.half_carry, result.carry);
    }

    /// CP.
    pub fn compare(&mut self, source: CompareSource)
        ensures
            final(self)@ == old(self)@.after_compare(source),
            old(self)@.steady(final(self)@),
    {
        proof {
            reveal(CpuState::after_compare);
        }
        let a = self.register.get_a();
        let value = self.operand_value(source.operand());
        let result = subtract_bytes(a, value, false);
        self.set_flags(result.zero, result.subtract, result.half_carry, result.carry);
    }

    /// XOR.
    pub fn xor(&mut self, source: XOrSource)
        ensures
            final(self)@ == old(self)@.after_xor(source),
            old(self)@.steady(final(self)@),
    {
        proof {
            reveal(CpuState::after_xor);
        }
        let a = self.register.get_a();
        let value = self.operand_value(source.operand());
        self.apply(xor_bytes(a, value));
    }

    /// OR.
    pub fn or(&mut self, source: OrSource)
        ensures
            final(self)@ == old(self)@.after_or(source),
            old(self)@.steady(final(self)@),
    {
        proof {
            reveal(CpuState::after_or);
        }
        let a = self.register.get_a();
        let value = self.operand_value(source.operand());
        self.apply(or_bytes(a, value));
    }

    /// AND.
    pub fn and(&mut self, source: AndSource)
        ensures
            final(self)@ == old(self)@.after_and(source),
            old(self)@.steady(final(self)@),
    {
        proof {
            reveal(CpuState::after_and);
        }
        let a = self.register.get_a();
        let value = self.operand_value(source.operand());
        self.apply(and_bytes(a, value));
    }

    /// SUB.
    pub fn sub(&mut self, source: SubtractSource)
        ensures
            final(self)@ == old(self)@.after_sub(source),
            old(self)@.steady(final(self)@),
    {
        proof {
            reveal(CpuState::after_sub);
        }
        let a = self.register.get_a();
        let value = self.operand_value(source.operand());
        self.apply(subtract_bytes(a, value, false));
    }

    /// SBC.
    pub fn sub_carry(&mut self, source: SubtractCarrySource)
        ensures
            final(self)@ == old(self)@.after_sub_carry(source),
            old(self)@.steady(final(self)@),
    {
        proof {
            reveal(CpuState::after_sub_carry);
        }
        let a = self.register.get_a();
        let carry = self.register.carry;
        let value = self.operand_value(source.operand());
        self.apply(subtract_bytes(a, value, carry));
    }

    /// ADC.
    pub fn add_carry(&mut self, source: AddCarrySource)
        ensures
            final(self)@ == old(self)@.after_add_carry(source),
            old(self)@.steady(final(self)@),
    {
        proof {
            reveal(CpuState::after_add_carry);
        }
        let a = self.register.get_a();
        let carry = self.register.carry;
        let value = self.operand_value(source.operand());
        self.apply(add_bytes(a, value, carry));
    }

    /// Reads the source of ADD.
    pub fn add_source(&mut self, source: AddSource) -> (r: u16)
        ensures
            r == old(self)@.add_value(source),
            final(self)@ == (if source == AddSource::PC || source == AddSource::PCe {
                old(self)@.skipped(1)
            } else {
                old(self)@
            }),
    {
        match source {
            AddSource::BC => self.register.get_bc(),
            AddSource::DE => self.register.get_de(),
            AddSource::HL => self.register.get_hl(),
            AddSource::SP => self.stack_pointer,
            AddSource::A => self.register.get_a() as u16,
            AddSource::B => self.register.get_b() as u16,
            AddSource::C => self.register.get_c() as u16,
            AddSource::D => self.register.get_d() as u16,
            AddSource::E => self.register.get_e() as u16,
            AddSource::H => self.register.get_h() as u16,
            AddSource::L => self.register.get_l() as u16,
            AddSource::PC => self.fetch() as u16,
            AddSource::PCe => self.fetch() as u16,
            AddSource::HLAddr => self.read(&self.register.get_hl()) as u16,
        }
    }

    /// ADD.
    pub fn add(&mut self, target: AddTarget, source: AddSource)
        ensures
            final(self)@ == old(self)@.after_add(target, source),
            old(self)@.steady(final(self)@),
    {
        proof {
            reveal(CpuState::after_add);
        }
        let a = self.register.get_a();
        let hl = self.register.get_hl();
        let sp = self.stack_pointer;
        let value = self.add_source(source);
        match target {
            AddTarget::A => {
                self.apply(add_bytes(a, (value % 256) as u8, false));
            },
            AddTarget::HL => {
                let (sum, half_carry, carry) = add_words(hl, value);
                self.register.set_hl(sum);
                self.register.subtract = false;
                self.register.half_carry = half_carry;
                self.register.carry = carry;
            },
            AddTarget::SP => {
                let (sum, half_carry, carry) = add_offset(sp, (value % 256) as u8);
                self.stack_pointer = sum;
                self.set_flags(false, false, half_carry, carry);
            },
        }
    }

    /// Reads the source of a load.
    pub fn load_source(&mut self, source: LoadSource) -> (r: u16)
        ensures
            r == old(self)@.load_value(source),
            final(self)@ == old(self)@.after_load_source(source),
            old(self)@.steady(final(self)@),
    {
        proof {
            reveal(CpuState::load_value);
            reveal(CpuState::after_load_source);
        }
        match source {
            LoadSource::PCAddr => {
                let addr = self.fetch_word();
                self.read(&addr) as u16
            },
            LoadSource::HL => self.register.get_hl(),
            LoadSource::SPE => {
                let e = self.fetch();
                let (sum, half_carry, carry) = add_offset(self.stack_pointer, e);
                self.set_flags(false, false, half_carry, carry);
                sum
            },
            LoadSource::BCAddr => self.read(&self.register.get_bc()) as u16,
            LoadSource::DEAddr => self.read(&self.register.get_de()) as u16,
            LoadSource::HLAddrInc => {
                let hl = self.register.get_hl();
                let value = self.read(&hl);
                self.register.set_hl(step_word(hl, true));
                value as u16
            },
            LoadSource::HLAddrDec => {
                let hl = self.register.get_hl();
                let value = self.read(&hl);
                self.register.set_hl(step_word(hl, false));
                value as u16
            },
            LoadSource::SP => self.stack_pointer,
            LoadSource::A => self.register.get_a() as u16,
            LoadSource::PC => self.fetch() as u16,
            LoadSource::PC16 => self.fetch_word(),
            LoadSource::B => self.register.get_b() as u16,
            LoadSource::C => self.register.get_c() as u16,
            LoadSource::D => self.register.get_d() as u16,
            LoadSource::E => self.register.get_e() as u16,
            LoadSource::H => self.register.get_h() as u16,
            LoadSource::L => self.register.get_l() as u16,
            LoadSource::HLAddr => self.read(&self.register.get_hl()) as u16,
        }
    }

    /// Stores a value in a load target that is a register pair or SP.
    fn store_pair(&mut self, target: LoadTarget, value: u16)
        requires
            target == LoadTarget::BC || target == LoadTarget::DE || target == LoadTarget::HL
                || target == LoadTarget::SP,
        ensures
            final(self)@ == old(self)@.stored(target, value),
            old(self)@.steady(final(self)@),
    {
        proof {
            reveal(CpuState::stored);
        }
        match target {
            LoadTarget::BC => self.register.set_bc(value),
            LoadTarget::DE => self.register.set_de(value),
            LoadTarget::HL => self.register.set_hl(value),
            _ => self.stack_pointer = value,
        }
    }

    /// Stores a value in a load target that is an eight-bit register or the
    /// byte at HL.
    fn store_byte(&mut self, target: LoadTarget, value: u16)
        requires
            target == LoadTarget::A || target == LoadTarget::B || target == LoadTarget::C
                || target == LoadTarget::D || target == LoadTarget::E || target == LoadTarget::H
                || target == LoadTarget::L || target == LoadTarget::HLAddr,
        ensures
            final(self)@ == old(self)@.stored(target, value),
            old(self)@.steady(final(self)@),
    {
        proof {
            reveal(CpuState::stored);
        }
        let low: u8 = (value % 256) as u8;
        match target {
            LoadTarget::A => self.store_operand(Operand8::A, low),
            LoadTarget::B => self.store_operand(Operand8::B, low),
            LoadTarget::C => self.store_operand(Operand8::C, low),
            LoadTarget::D => self.store_operand(Operand8::D, low),
            LoadTarget::E => self.store_operand(Operand8::E, low),
            LoadTarget::H => self.store_operand(Operand8::H, low),
            LoadTarget::L => self.store_operand(Operand8::L, low),
            _ => self.store_operand(Operand8::HLAddr, low),
        }
    }

    /// Stores a value in a load target in memory that a register pair
    /// addresses.
    fn store_indirect(&mut self, target: LoadTarget, value: u16)
        requires
            target == LoadTarget::BCAddr || target == LoadTarget::DEAddr || target
                == LoadTarget::HLAddrInc || target == LoadTarget::HLAddrDec,
        ensures
            final(self)@ == old(self)@.stored(target, value),
            old(self)@.steady(final(self)@),
    {
        proof {
            reveal(CpuState::stored);
        }
        let low: u8 = (value % 256) as u8;
        match target {
            LoadTarget::BCAddr => {
                let addr = self.register.get_bc();
                self.write(&addr, low);
            },
            LoadTarget::DEAddr => {
                let addr = self.register.get_de();
                self.write(&addr, low);
            },
            LoadTarget::HLAddrInc => {
                let hl = self.register.get_hl();
                self.write(&hl, low);
                self.register.set_hl(step_word(hl, true));
            },
            _ => {
                let hl = self.register.get_hl();
                self.write(&hl, low);
                self.register.set_hl(step_word(hl, false));
            },
        }
    }

    /// Stores a value in a load target in memory that the bytes after the
    /// opcode address.
    fn store_direct(&mut self, target: LoadTarget, value: u16)
        requires
            target == LoadTarget::PCAddr || target == LoadTarget::PC16Addr,
        ensures
            final(self)@ == old(self)@.stored(target, value),
            old(self)@.steady(final(self)@),
    {
        proof {
            reveal(CpuState::stored);
        }
        let low: u8 = (value % 256) as u8;
        let addr = self.fetch_word();
        self.write(&addr, low);
        if target == LoadTarget::PC16Addr {
            let next = addr.wrapping_add(1);
            self.write(&next, (value / 256) as u8);
        }
        assert(self@ == old(self)@.stored(target, value));
    }

    /// Stores a value in the target of a load.
    pub fn store(&mut self, target: LoadTarget, value: u16)
        ensures
            final(self)@ == old(self)@.stored(target, value),
            old(self)@.steady(final(self)@),
    {
        match target {
            LoadTarget::BC | LoadTarget::DE | LoadTarget::HL | LoadTarget::SP => self.store_pair(
                target,
                value,
            ),
            LoadTarget::BCAddr
            | LoadTarget::DEAddr
            | LoadTarget::HLAddrInc
            | LoadTarget::HLAddrDec => self.store_indirect(target, value),
            LoadTarget::PCAddr | LoadTarget::PC16Addr => self.store_direct(target, value),
            _ => self.store_byte(target, value),
        }
    }

    /// LD.
    pub fn load(&mut self, target: LoadTarget, source: LoadSource)
        ensures
            final(self)@ == old(self)@.after_load(target, source),
            old(self)@.steady(final(self)@),
    {
        proof {
            reveal(CpuState::after_load);
        }
        let value = self.load_source(source);
        self.store(target, value);
    }

    /// LDH and LD with C.
    pub fn load_accumulator(
        &mut self,
        target: LoadAccumulatorTarget,
        source: LoadAccumulatorSource,
    )
        ensures
            final(self)@ == old(self)@.after_load_accumulator(target, source),
            old(self)@.steady(final(self)@),
    {
        proof {
            reveal(CpuState::after_load_accumulator);
            reveal(CpuState::set8);
        }
        let value: u8 = match source {
            LoadAccumulatorSource::A => self.register.get_a(),
            LoadAccumulatorSource::PCAddr => {
                let low = self.fetch();
                self.read(&(0xFF00 + low as u16))
            },
            LoadAccumulatorSource::CAddr => self.read(&(0xFF00 + self.register.get_c() as u16)),
        };
        match target {
            LoadAccumulatorTarget::PCAddr => {
                let low = self.fetch();
                let addr: u16 = 0xFF00 + low as u16;
                self.write(&addr, value);
                assert(self@ == old(self)@.after_load_accumulator(target, source));
            },
            LoadAccumulatorTarget::A => self.register.set_a(value),
            LoadAccumulatorTarget::CAddr => {
                let addr: u16 = 0xFF00 + self.register.get_c() as u16;
                self.write(&addr, value);
            },
        }
    }

    /// INC of an eight-bit operand.
    pub fn increment_operand(&mut self, operand: Operand8)
        requires
            operand != Operand8::Immediate,
        ensures
            final(self)@ == old(self)@.incremented(operand),
            old(self)@.steady(final(self)@),
    {
        proof {
            reveal(CpuState::incremented);
        }
        let carry = self.register.carry;
        let value = self.operand_value(operand);
        let result = add_bytes(value, 1, false);
        self.store_operand(operand, result.value);
        self.set_flags(result.zero, false, result.half_carry, carry);
    }

    /// DEC of an eight-bit operand.
    pub fn decrement_operand(&mut self, operand: Operand8)
        requires
            operand != Operand8::Immediate,
        ensures
            final(self)@ == old(self)@.decremented(operand),
            old(self)@.steady(final(self)@),
    {
        proof {
            reveal(CpuState::decremented);
        }
        let carry = self.register.carry;
        let value = self.operand_value(operand);
        let result = subtract_bytes(value, 1, false);
        self.store_operand(operand, result.value);
        self.set_flags(result.zero, true, result.half_carry, carry);
    }

    /// INC.
    pub fn increment(&mut self, target: IncrementTarget)
        ensures
            final(self)@ == old(self)@.after_increment(target),
            old(self)@.steady(final(self)@),
    {
        proof {
            reveal(CpuState::after_increment);
        }
        match target {
            IncrementTarget::BC => self.register.set_bc(step_word(self.register.get_bc(), true)),
            IncrementTarget::DE => self.register.set_de(step_word(self.register.get_de(), true)),
            IncrementTarget::HL => self.register.set_hl(step_word(self.register.get_hl(), true)),
            IncrementTarget::SP => self.stack_pointer = step_word(self.stack_pointer, true),
            IncrementTarget::A => self.increment_operand(Operand8::A),
            IncrementTarget::B => self.increment_operand(Operand8::B),
            IncrementTarget::C => self.increment_operand(Operand8::C),
            IncrementTarget::D => self.increment_operand(Operand8::D),
            IncrementTarget::E => self.increment_operand(Operand8::E),
            IncrementTarget::H => self.increment_operand(Operand8::H),
            IncrementTarget::L => self.increment_operand(Operand8::L),
            IncrementTarget::HLAddr => self.increment_operand(Operand8::HLAddr),
        }
    }

    /// DEC.
    pub fn decrement(&mut self, target: DecrementTarget)
        ensures
            final(self)@ == old(self)@.after_decrement(target),
            old(self)@.steady(final(self)@),
    {
        proof {
            reveal(CpuState::after_decrement);
        }
        match target {
            DecrementTarget::BC => self.register.set_bc(step_word(self.register.get_bc(), false)),
            DecrementTarget::DE => self.register.set_de(step_word(self.register.get_de(), false)),
            DecrementTarget::HL => self.register.set_hl(step_word(self.register.get_hl(), false)),
            DecrementTarget::SP => self.stack_pointer = step_word(self.stack_pointer, false),
            DecrementTarget::A => self.decrement_operand(Operand8::A),
            DecrementTarget::B => self.decrement_operand(Operand8::B),
            DecrementTarget::C => self.decrement_operand(Operand8::C),
            DecrementTarget::D => self.decrement_operand(Operand8::D),
            DecrementTarget::E => self.decrement_operand(Operand8::E),
            DecrementTarget::H => self.decrement_operand(Operand8::H),
            DecrementTarget::L => self.decrement_operand(Operand8::L),
            DecrementTarget::HLAddr => self.decrement_operand(Operand8::HLAddr),
        }
    }

    /// A prefixed rotate or shift.
    pub fn rotate(&mut self, source: BitwiseSource, kind: RotateKind)
        ensures
            final(self)@ == old(self)@.after_rotate(source, kind),
            old(self)@.steady(final(self)@),
    {
        proof {
            reveal(CpuState::after_rotate);
        }
        let carry = self.register.carry;
        let operand = source.operand();
        let value = self.operand_value(operand);
        let (result, carry_out) = rotate_byte(kind, value, carry);
        self.store_operand(operand, result);
        self.set_flags(result == 0, false, false, carry_out);
    }

    /// RL: a rotate to the left through the carry.
    pub fn rotate_left(&mut self, source: BitwiseSource)
        ensures
            final(self)@ == old(self)@.after_rotate(source, RotateKind::Left),
            old(self)@.steady(final(self)@),
    {
        self.rotate(source, RotateKind::Left);
    }

    /// RLCA, RLA, RRCA, RRA.
    pub fn rotate_accumulator(&mut self, kind: RotateKind)
        ensures
            final(self)@ == old(self)@.after_rotate_accumulator(kind),
            old(self)@.steady(final(self)@),
    {
        proof {
            reveal(CpuState::after_rotate_accumulator);
            reveal(CpuState::set8);
        }
        let (result, carry_out) = rotate_byte(kind, self.register.get_a(), self.register.carry);
        self.register.set_a(result);
        self.set_flags(false, false, false, carry_out);
    }

    /// SWAP.
    pub fn swap(&mut self, source: BitwiseSource)
        ensures
            final(self)@ == old(self)@.after_swap(source),
            old(self)@.steady(final(self)@),
    {
        proof {
            reveal(CpuState::after_swap);
        }
        let operand = source.operand();
        let value = swap_nibbles(self.operand_value(operand));
        self.store_operand(operand, value);
        self.set_flags(value == 0, false, false, false);
    }

    /// BIT.
    pub fn bit(&mut self, bit: u8, source: BitwiseSource)
        ensures
            final(self)@ == old(self)@.after_bit(bit, source),
            old(self)@.steady(final(self)@),
    {
        proof {
            reveal(CpuState::after_bit);
        }
        let carry = self.register.carry;
        let value = self.operand_value(source.operand());
        self.set_flags(!test_bit(value, bit), false, true, carry);
    }

    /// SET.
    pub fn set_bit(&mut self, bit: u8, source: BitwiseSource)
        ensures
            final(self)@ == old(self)@.after_set_bit(bit, source),
            old(self)@.steady(final(self)@),
    {
        proof {
            reveal(CpuState::after_set_bit);
        }
        let operand = source.operand();
        let value = self.operand_value(operand);
        self.store_operand(operand, set_bit(value, bit));
    }

    /// RES.
    pub fn reset_bit(&mut self, bit: u8, source: BitwiseSource)
        ensures
            final(self)@ == old(self)@.after_reset_bit(bit, source),
            old(self)@.steady(final(self)@),
    {
        proof {
            reveal(CpuState::after_reset_bit);
        }
        let operand = source.operand();
        let value = self.operand_value(operand);
        self.store_operand(operand, reset_bit(value, bit));
    }

    /// JR.
    pub fn jump_relative(&mut self, condition: JumpCondition)
        ensures
            final(self)@ == old(self)@.after_jump_relative(condition),
            old(self)@.steady(final(self)@),
    {
        proof {
            reveal(CpuState::after_jump_relative);
        }
        if condition == JumpCondition::Always {
            let e = self.fetch();
            self.program_counter = add_offset(self.program_counter, e).0;
        } else if self.condition_holds(condition) {
            self.instruction = Instruction::JumpRelative(JumpCondition::Always);
            self.step_count = 1;
        } else {
            self.program_counter = self.program_counter.wrapping_add(1);
        }
    }

    /// JP.
    pub fn jump(&mut self, condition: JumpCondition)
        ensures
            final(self)@ == old(self)@.after_jump(condition),
            old(self)@.steady(final(self)@),
    {
        proof {
            reveal(CpuState::after_jump);
        }
        if condition == JumpCondition::Always {
            let addr = self.fetch_word();
            self.program_counter = addr;
        } else if self.condition_holds(condition) {
            self.instruction = Instruction::Jump(JumpCondition::Always);
            self.step_count = 1;
        } else {
            self.program_counter = self.program_counter.wrapping_add(2);
        }
    }

    /// JP HL.
    pub fn jump_hl(&mut self)
        ensures
            final(self)@ == old(self)@.at(old(self)@.register.hl()),
            old(self)@.steady(final(self)@),
    {
        self.program_counter = self.register.get_hl();
    }

    /// RST, and the end of CALL.
    pub fn restart(&mut self, addr: u16)
        ensures
            final(self)@ == old(self)@.after_restart(addr),
            old(self)@.steady(final(self)@),
    {
        proof {
            reveal(CpuState::after_restart);
        }
        let pc = self.program_counter;
        self.push_word(pc);
        self.program_counter = addr;
    }

    /// CALL.
    pub fn call(&mut self, condition: JumpCondition)
        ensures
            final(self)@ == old(self)@.after_call(condition),
            old(self)@.steady(final(self)@),
    {
        proof {
            reveal(CpuState::after_call);
        }
        if condition == JumpCondition::Always {
            let addr = self.fetch_word();
            self.restart(addr);
        } else if self.condition_holds(condition) {
            self.instruction = Instruction::Call(JumpCondition::Always);
            self.step_count = 3;
        } else {
            self.program_counter = self.program_counter.wrapping_add(2);
        }
    }

    /// RET.
    pub fn ret(&mut self, condition: JumpCondition)
        ensures
            final(self)@ == old(self)@.after_ret(condition),
            old(self)@.steady(final(self)@),
    {
        proof {
            reveal(CpuState::after_ret);
        }
        if condition == JumpCondition::Always {
            let addr = self.pop_word();
            self.program_counter = addr;
        } else if self.condition_holds(condition) {
            self.instruction = Instruction::Return(JumpCondition::Always);
            self.step_count = 3;
        }
    }

    /// PUSH.
    pub fn push(&mut self, target: PushTarget)
        ensures
            final(self)@ == old(self)@.after_push(target),
            old(self)@.steady(final(self)@),
    {
        proof {
            reveal(CpuState::after_push);
        }
        let value = match target {
            PushTarget::BC => self.register.get_bc(),
            PushTarget::DE => self.register.get_de(),
            PushTarget::HL => self.register.get_hl(),
            PushTarget::AF => self.register.get_af(),
        };
        self.push_word(value);
    }

    /// POP.
    pub fn pop(&mut self, target: PopTarget)
        ensures
            final(self)@ == old(self)@.after_pop(target),
            old(self)@.steady(final(self)@),
    {
        proof {
            reveal(CpuState::after_pop);
        }
        let value = self.pop_word();
        match target {
            PopTarget::BC => self.register.set_bc(value),
            PopTarget::DE => self.register.set_de(value),
            PopTarget::HL => self.register.set_hl(value),
            PopTarget::AF => self.register.set_af(value),
        }
    }

    /// CPL.
    pub fn complement_accumulator(&mut self)
        ensures
            final(self)@ == old(self)@.after_complement_accumulator(),
            old(self)@.steady(final(self)@),
    {
        proof {
            reveal(CpuState::after_complement_accumulator);
        }
        self.register.set_a(!self.register.get_a());
        self.register.subtract = true;
        self.register.half_carry = true;
    }

    /// CCF.
    pub fn complement_carry_flag(&mut self)
        ensures
            final(self)@ == old(self)@.after_complement_carry_flag(),
            old(self)@.steady(final(self)@),
    {
        proof {
            reveal(CpuState::after_complement_carry_flag);
        }
        self.register.carry = !self.register.carry;
        self.register.subtract = false;
        self.register.half_carry = false;
    }

    /// SCF.
    pub fn set_carry_flag(&mut self)
        ensures
            final(self)@ == old(self)@.after_set_carry_flag(),
            old(self)@.steady(final(self)@),
    {
        proof {
            reveal(CpuState::after_set_carry_flag);
        }
        self.register.carry = true;
        self.register.subtract = false;
        self.register.half_carry = false;
    }

    /// DAA.
    pub fn decimal_adjust_accumulator(&mut self)
        ensures
            final(self)@ == old(self)@.after_decimal_adjust(),
            old(self)@.steady(final(self)@),
    {
        proof {
            reveal(CpuState::after_decimal_adjust);
            reveal(CpuState::set8);
        }
        let (value, carry) = decimal_adjust(
            self.register.get_a(),
            self.register.subtract,
            self.register.half_carry,
            self.register.carry,
        );
        self.register.set_a(value);
        self.register.zero = value == 0;
        self.register.half_carry = false;
        self.register.carry = carry;
    }

    /// The 0xCB prefix.
    pub fn prefix(&mut self)
        ensures
            final(self)@ == old(self)@.after_prefix(),
            old(self)@.steady(final(self)@),
    {
        proof {
            reveal(CpuState::after_prefix);
        }
        let opcode = self.fetch();
        let (instruction, cycles) = Instruction::get_cb_instruction(&opcode);
        self.instruction = instruction;
        self.step_count = cycles;
    }

    /// STOP: the byte after the opcode is skipped and the processor stops.
    pub fn stop(&mut self)
        ensures
            final(self)@ == (CpuState { status: CpuStatus::Stopped, ..old(self)@.skipped(1) }),
            old(self)@.steady(final(self)@),
    {
        self.program_counter = self.program_counter.wrapping_add(1);
        self.status = CpuStatus::Stopped;
    }

    /// Puts the processor in a status: HALT halts it, an unassigned opcode
    /// leaves it errored.
    pub fn set_status(&mut self, status: CpuStatus)
        ensures
            final(self)@ == (CpuState { status, ..old(self)@ }),
            old(self)@.steady(final(self)@),
    {
        self.status = status;
    }

    /// EI and DI. EI asks for interrupts to be enabled at the start of the
    /// next cycle; DI disables them at once and takes such a request back.
    pub fn set_interrupts(&mut self, enable: bool)
        ensures
            final(self)@ == (if enable {
                CpuState { ime_next: true, ..old(self)@ }
            } else {
                CpuState { ime: false, ime_next: false, ..old(self)@ }
            }),
            old(self)@.steady(final(self)@),
    {
        if enable {
            self.ime_next = true;
        } else {
            self.ime = false;
            self.ime_next = false;
        }
    }

    /// RETI: a return that enables interrupts at once.
    pub fn return_interrupt(&mut self)
        ensures
            final(self)@ == (CpuState {
                ime: true,
                ..old(self)@.after_ret(JumpCondition::Always)
            }),
            old(self)@.steady(final(self)@),
    {
        self.ret(JumpCondition::Always);
        self.ime = true;
    }

    /// Executes an instruction that changes the status of the processor, the
    /// interrupt latches or single flags.
    fn execute_control(&mut self, instruction: Instruction)
        requires
            is_control(instruction),
        ensures
            final(self)@ == old(self)@.after_control(instruction),
            old(self)@.steady(final(self)@),
    {
        proof {
            reveal(CpuState::after_control);
        }
        match instruction {
            Instruction::Nop => {},
            Instruction::Stop => self.stop(),
            Instruction::Halt => self.set_status(CpuStatus::Halted),
            Instruction::DisableInterrupts => self.set_interrupts(false),
            Instruction::EnableInterrupts => self.set_interrupts(true),
            Instruction::DecimalAdjustAccumulator => self.decimal_adjust_accumulator(),
            Instruction::SetCarryFlag => self.set_carry_flag(),
            Instruction::ComplementAccumulator => self.complement_accumulator(),
            Instruction::ComplementCarryFlag => self.complement_carry_flag(),
            Instruction::CB => self.prefix(),
            Instruction::Illegal(_) => self.set_status(CpuStatus::Errored),
            _ => {},
        }
    }

    /// Executes an arithmetic or logic instruction.
    fn execute_arithmetic(&mut self, instruction: Instruction)
        requires
            is_arithmetic(instruction),
        ensures
            final(self)@ == old(self)@.after_arithmetic(instruction),
            old(self)@.steady(final(self)@),
    {
        proof {
            reveal(CpuState::after_arithmetic);
        }
        match instruction {
            Instruction::Add(target, source) => self.add(target, source),
            Instruction::AddCarry(source) => self.add_carry(source),
            Instruction::Subtract(source) => self.sub(source),
            Instruction::SubtractCarry(source) => self.sub_carry(source),
            Instruction::And(source) => self.and(source),
            Instruction::Or(source) => self.or(source),
            Instruction::XOr(source) => self.xor(source),
            Instruction::Compare(source) => self.compare(source),
            Instruction::Increment(target) => self.increment(target),
            Instruction::Decrement(target) => self.decrement(target),
            _ => {},
        }
    }

    /// Executes a load, a push or a pop.
    fn execute_transfer(&mut self, instruction: Instruction)
        requires
            is_transfer(instruction),
        ensures
            final(self)@ == old(self)@.after_transfer(instruction),
            old(self)@.steady(final(self)@),
    {
        proof {
            reveal(CpuState::after_transfer);
        }
        match instruction {
            Instruction::Load(target, source) => self.load(target, source),
            Instruction::LoadAccumulator(target, source) => self.load_accumulator(target, source),
            Instruction::Pop(target) => self.pop(target),
            Instruction::Push(target) => self.push(target),
            _ => {},
        }
    }

    /// Executes a prefixed rotate, shift or swap.
    fn execute_rotation(&mut self, instruction: Instruction)
        requires
            is_rotation(instruction),
        ensures
            final(self)@ == old(self)@.after_rotation(instruction),
            old(self)@.steady(final(self)@),
    {
        proof {
            reveal(CpuState::after_rotation);
        }
        match instruction {
            Instruction::RotateLeftCircular(source) => self.rotate(
                source,
                RotateKind::LeftCircular,
            ),
            Instruction::RotateLeft(source) => self.rotate_left(source),
            Instruction::RotateRightCircular(source) => self.rotate(
                source,
                RotateKind::RightCircular,
            ),
            Instruction::RotateRight(source) => self.rotate(source, RotateKind::Right),
            Instruction::ShiftRightArithmetic(source) => self.rotate(
                source,
                RotateKind::ShiftRightArithmetic,
            ),
            Instruction::ShiftRightLogical(source) => self.rotate(
                source,
                RotateKind::ShiftRightLogical,
            ),
            Instruction::ShiftLeftArithmetic(source) => self.rotate(source, RotateKind::ShiftLeft),
            Instruction::Swap(source) => self.swap(source),
            _ => {},
        }
    }

    /// Executes a bit instruction or a rotate of the accumulator.
    fn execute_bitwise(&mut self, instruction: Instruction)
        requires
            is_bitwise(instruction),
        ensures
            final(self)@ == old(self)@.after_bitwise(instruction),
            old(self)@.steady(final(self)@),
    {
        proof {
            reveal(CpuState::after_bitwise);
        }
        match instruction {
            Instruction::Bit(bit, source) => self.bit(bit, source),
            Instruction::SetBit(bit, source) => self.set_bit(bit, source),
            Instruction::ResetBit(bit, source) => self.reset_bit(bit, source),
            Instruction::RotateLeftCircularAccumulator => self.rotate_accumulator(
                RotateKind::LeftCircular,
            ),
            Instruction::RotateLeftAccumulator => self.rotate_accumulator(RotateKind::Left),
            Instruction::RotateRightCircularAccumulator => self.rotate_accumulator(
                RotateKind::RightCircular,
            ),
            Instruction::RotateRightAccumulator => self.rotate_accumulator(RotateKind::Right),
            _ => {},
        }
    }

    /// Executes a jump, a call, a return or a restart.
    fn execute_branch(&mut self, instruction: Instruction)
        requires
            is_branch(instruction),
        ensures
            final(self)@ == old(self)@.after_branch(instruction),
            old(self)@.steady(final(self)@),
    {
        proof {
            reveal(CpuState::after_branch);
        }
        match instruction {
            Instruction::JumpRelative(condition) => self.jump_relative(condition),
            Instruction::Jump(condition) => self.jump(condition),
            Instruction::JumpHL => self.jump_hl(),
            Instruction::Call(condition) => self.call(condition),
            Instruction::Return(condition) => self.ret(condition),
            Instruction::ReturnInterrupt => self.return_interrupt(),
            Instruction::Restart(addr) => self.restart(addr),
            _ => {},
        }
    }

    /// Lets the current instruction take effect.
    pub fn process_instruction(&mut self)
        ensures
            final(self)@ == old(self)@.after_instruction(old(self)@.instruction),
            old(self)@.steady(final(self)@),
    {
        self.step_count = 0;
        let instruction = self.instruction;
        match instruction {
            Instruction::Nop
            | Instruction::Stop
            | Instruction::Halt
            | Instruction::DisableInterrupts
            | Instruction::EnableInterrupts
            | Instruction::DecimalAdjustAccumulator
            | Instruction::SetCarryFlag
            | Instruction::ComplementAccumulator
            | Instruction::ComplementCarryFlag
            | Instruction::CB
            | Instruction::Illegal(_) => self.execute_control(instruction),
            Instruction::Add(_, _)
            | Instruction::AddCarry(_)
            | Instruction::Subtract(_)
            | Instruction::SubtractCarry(_)
            | Instruction::And(_)
            | Instruction::Or(_)
            | Instruction::XOr(_)
            | Instruction::Compare(_)
            | Instruction::Increment(_)
            | Instruction::Decrement(_) => self.execute_arithmetic(instruction),
            Instruction::Load(_, _)
            | Instruction::LoadAccumulator(_, _)
            | Instruction::Pop(_)
            | Instruction::Push(_) => self.execute_transfer(instruction),
            Instruction::RotateLeftCircular(_)
            | Instruction::RotateLeft(_)
            | Instruction::RotateRightCircular(_)
            | Instruction::RotateRight(_)
            | Instruction::ShiftRightArithmetic(_)
            | Instruction::ShiftRightLogical(_)
            | Instruction::ShiftLeftArithmetic(_)
            | Instruction::Swap(_) => self.execute_rotation(instruction),
            Instruction::Bit(_, _)
            | Instruction::SetBit(_, _)
            | Instruction::ResetBit(_, _)
            | Instruction::RotateLeftCircularAccumulator
            | Instruction::RotateLeftAccumulator
            | Instruction::RotateRightCircularAccumulator
            | Instruction::RotateRightAccumulator => self.execute_bitwise(instruction),
            Instruction::JumpRelative(_)
            | Instruction::Jump(_)
            | Instruction::JumpHL
            | Instruction::Call(_)
            | Instruction::Return(_)
            | Instruction::ReturnInterrupt
            | Instruction::Restart(_) => self.execute_branch(instruction),
        }
    }
}

/// Instructions that change the status of the processor, the interrupt latches
/// or single flags, and the prefix.
pub open spec fn is_control(instruction: Instruction) -> bool {
    instruction is Nop || instruction is Stop || instruction is Halt
        || instruction is DisableInterrupts || instruction is EnableInterrupts
        || instruction is DecimalAdjustAccumulator || instruction is SetCarryFlag
        || instruction is ComplementAccumulator || instruction is ComplementCarryFlag
        || instruction is CB || instruction is Illegal
}

/// Arithmetic and logic instructions.
pub open spec fn is_arithmetic(instruction: Instruction) -> bool {
    instruction is Add || instruction is AddCarry || instruction is Subtract
        || instruction is SubtractCarry || instruction is And || instruction is Or
        || instruction is XOr || instruction is Compare || instruction is Increment
        || instruction is Decrement
}

/// Loads, pushes and pops.
pub open spec fn is_transfer(instruction: Instruction) -> bool {
    instruction is Load || instruction is LoadAccumulator || instruction is Pop
        || instruction is Push
}

/// Prefixed rotates, shifts and swaps.
pub open spec fn is_rotation(instruction: Instruction) -> bool {
    instruction is RotateLeftCircular || instruction is RotateLeft
        || instruction is RotateRightCircular || instruction is RotateRight
        || instruction is ShiftRightArithmetic || instruction is ShiftRightLogical
        || instruction is ShiftLeftArithmetic || instruction is Swap
}

/// Bit instructions and the rotates of the accumulator.
pub open spec fn is_bitwise(instruction: Instruction) -> bool {
    instruction is Bit || instruction is SetBit || instruction is ResetBit
        || instruction is RotateLeftCircularAccumulator || instruction is RotateLeftAccumulator
        || instruction is RotateRightCircularAccumulator || instruction is RotateRightAccumulator
}

/// Jumps, calls, returns and restarts.
pub open spec fn is_branch(instruction: Instruction) -> bool {
    instruction is JumpRelative || instruction is Jump || instruction is JumpHL
        || instruction is Call || instruction is Return || instruction is ReturnInterrupt
        || instruction is Restart
}

} // verus!

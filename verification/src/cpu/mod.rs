//! The SM83 processor: registers, the fetch and execute cycle, interrupts.
//!
//! One call of `Cpu::step` is one machine cycle. An instruction is fetched
//! and decoded in its first cycle and takes effect in its last; every cycle
//! advances the picture-processing unit by four dots.
pub mod alu;
pub mod execute;
pub mod instructions;
pub mod registers;

use crate::memory::cart::Cart;
use crate::memory::mbc::MbcState;
use crate::memory::{BusState, MemoryBus};
use crate::ppu::{LcdMode, PpuState};
use alu::{add8, add_bytes, sub8, subtract_bytes, word};
use instructions::{decode, CpuStatus, Flag, Instruction, Interrupt, JumpCondition};
use registers::Register;
use vstd::prelude::*;

verus! {

/// Dots the picture-processing unit advances in one machine cycle.
pub const DOTS_PER_CYCLE: u8 = 4;

/// The processor and the machine around it, as plain values.
pub struct CpuState {
    pub status: CpuStatus,
    pub register: Register,
    pub program_counter: u16,
    pub stack_pointer: u16,
    pub bus: BusState,
    /// Machine cycles the current instruction still takes; 0 between
    /// instructions.
    pub step_count: u8,
    /// The instruction that is being executed.
    pub instruction: Instruction,
    pub ime: bool,
    /// Set by EI: interrupts are enabled at the start of the next cycle.
    pub ime_next: bool,
}

/// A sixteen-bit value moved by `n`, wrapping around.
pub open spec fn moved(value: u16, n: int) -> u16 {
    ((value + n) % 0x10000) as u16
}

/// The register file as the boot program leaves it: AF = 0x01B0,
/// BC = 0x0013, DE = 0x00D8, HL = 0x014D.
pub open spec fn boot_registers() -> Register {
    Register {
        a: 0x01,
        b: 0x00,
        c: 0x13,
        d: 0x00,
        e: 0xD8,
        h: 0x01,
        l: 0x4D,
        zero: true,
        subtract: false,
        half_carry: true,
        carry: true,
    }
}

/// Whether the picture-processing unit went from the horizontal blank into
/// the vertical blank between two states of the machine.
pub open spec fn entered_vblank(before: CpuState, after: CpuState) -> bool {
    before.bus.ppu.mode == LcdMode::HBlank && after.bus.ppu.mode == LcdMode::VBlank
}

/// The pending interrupt of highest priority: the one with the lowest bit.
pub open spec fn first_pending(pending: u8) -> Interrupt {
    if pending & 0x01 != 0 {
        Interrupt::VBlank
    } else if pending & 0x02 != 0 {
        Interrupt::LCD
    } else if pending & 0x04 != 0 {
        Interrupt::Timer
    } else if pending & 0x08 != 0 {
        Interrupt::Serial
    } else {
        Interrupt::Joypad
    }
}

impl CpuState {
    /// The machine after a reset: the processor and the picture-processing
    /// unit in their state after the boot program, the I/O registers the boot
    /// program sets at their boot values, IE cleared. The cartridge, work RAM
    /// and high RAM stay as they are.
    pub open spec fn reset(self) -> CpuState {
        CpuState {
            status: CpuStatus::Running,
            register: boot_registers(),
            program_counter: 0x0100,
            stack_pointer: 0xFFFE,
            bus: self.bus.booted(),
            step_count: 0,
            instruction: Instruction::Nop,
            ime: false,
            ime_next: false,
        }
    }

    /// The machine after power-on with a cartridge.
    pub open spec fn power_on(cart: MbcState) -> CpuState {
        CpuState {
            status: CpuStatus::Running,
            register: boot_registers(),
            program_counter: 0x0100,
            stack_pointer: 0xFFFE,
            bus: BusState::power_on(cart).booted(),
            step_count: 0,
            instruction: Instruction::Nop,
            ime: false,
            ime_next: false,
        }
    }

    /// What holds of the machine at every step: the invariant of the
    /// picture-processing unit.
    pub open spec fn inv(self) -> bool {
        self.bus.ppu.inv()
    }

    /// Whether another state of the machine has the picture-processing unit
    /// where this one has it.
    pub open spec fn steady(self, after: CpuState) -> bool {
        self.bus.steady(after.bus)
    }

    /// The byte at an address.
    pub open spec fn read(self, addr: u16) -> u8 {
        self.bus.read(addr)
    }

    /// The machine after a write.
    pub open spec fn written(self, addr: u16, value: u8) -> CpuState {
        CpuState { bus: self.bus.write(addr, value), ..self }
    }

    /// The byte at the program counter.
    pub open spec fn immediate(self) -> u8 {
        self.bus.read(self.program_counter)
    }

    /// The two bytes at the program counter, low byte first.
    pub open spec fn immediate16(self) -> u16 {
        word(self.bus.read(moved(self.program_counter, 1)), self.bus.read(self.program_counter))
    }

    /// The machine with the program counter moved forward by `n` bytes.
    pub open spec fn skipped(self, n: int) -> CpuState {
        CpuState { program_counter: moved(self.program_counter, n), ..self }
    }

    /// The machine with the program counter set.
    pub open spec fn at(self, addr: u16) -> CpuState {
        CpuState { program_counter: addr, ..self }
    }

    /// The machine with another register file.
    pub open spec fn with_register(self, register: Register) -> CpuState {
        CpuState { register, ..self }
    }

    /// The machine after a sixteen-bit value is pushed: the high byte at
    /// SP - 1, the low byte at SP - 2, which is the new SP.
    pub open spec fn pushed(self, value: u16) -> CpuState {
        CpuState {
            stack_pointer: moved(self.stack_pointer, -2),
            bus: self.bus.write(moved(self.stack_pointer, -1), (value / 256) as u8).write(
                moved(self.stack_pointer, -2),
                (value % 256) as u8,
            ),
            ..self
        }
    }

    /// The sixteen-bit value on top of the stack.
    pub open spec fn top(self) -> u16 {
        word(self.bus.read(moved(self.stack_pointer, 1)), self.bus.read(self.stack_pointer))
    }

    /// The machine after the value on top of the stack is taken off.
    pub open spec fn popped(self) -> CpuState {
        CpuState { stack_pointer: moved(self.stack_pointer, 2), ..self }
    }

    /// The value of a flag.
    pub open spec fn flag(self, flag: Flag) -> bool {
        match flag {
            Flag::Z => self.register.zero,
            Flag::N => self.register.subtract,
            Flag::H => self.register.half_carry,
            Flag::C => self.register.carry,
        }
    }

    /// The machine with a flag set or cleared.
    pub open spec fn with_flag(self, flag: Flag, value: bool) -> CpuState {
        match flag {
            Flag::Z => self.with_register(Register { zero: value, ..self.register }),
            Flag::N => self.with_register(Register { subtract: value, ..self.register }),
            Flag::H => self.with_register(Register { half_carry: value, ..self.register }),
            Flag::C => self.with_register(Register { carry: value, ..self.register }),
        }
    }

    /// Whether the condition of a jump holds.
    pub open spec fn holds(self, condition: JumpCondition) -> bool {
        match condition {
            JumpCondition::Always => true,
            JumpCondition::Z => self.register.zero,
            JumpCondition::C => self.register.carry,
            JumpCondition::NZ => !self.register.zero,
            JumpCondition::NC => !self.register.carry,
        }
    }

    /// The interrupts that are both asked for and enabled: IE and IF, of
    /// which five bits count.
    pub open spec fn pending(self) -> u8 {
        self.bus.ie & self.bus.interrupt_flags() & 0x1F
    }

    /// The machine after it has turned to an interrupt: its bit in IF and IME
    /// are cleared, the program counter is pushed and set to the vector of
    /// the interrupt, and a halted processor runs again.
    pub open spec fn serviced(self, interrupt: Interrupt) -> CpuState {
        (CpuState {
            status: CpuStatus::Running,
            ime: false,
            bus: self.bus.without_interrupts(interrupt.mask_spec()),
            ..self
        }).pushed(self.program_counter).at(interrupt.vector_spec())
    }

    /// The machine with the next instruction fetched and decoded.
    pub open spec fn fetched(self) -> CpuState {
        CpuState {
            instruction: decode(self.immediate()).0,
            step_count: decode(self.immediate()).1,
            ..self.skipped(1)
        }
    }

    /// One cycle of an instruction under way: the last cycle executes it, any
    /// other only counts down.
    pub open spec fn worked(self) -> CpuState {
        if self.step_count > 1 {
            CpuState { step_count: (self.step_count - 1) as u8, ..self }
        } else {
            self.after_instruction(self.instruction)
        }
    }

    /// One cycle that starts between two instructions. An interrupt that is
    /// pending while IME is set is serviced. Else a halted processor wakes if
    /// an interrupt is pending and sleeps on if none is. Else the next
    /// instruction is fetched and its first cycle is worked.
    pub open spec fn begun(self) -> CpuState {
        if self.ime && self.pending() != 0 {
            self.serviced(first_pending(self.pending()))
        } else if self.status == CpuStatus::Halted {
            if self.pending() != 0 {
                CpuState { status: CpuStatus::Running, ..self }
            } else {
                self
            }
        } else {
            self.fetched().worked()
        }
    }

    /// The machine with IME set if EI asked for it in the cycle before.
    pub open spec fn latched(self) -> CpuState {
        if self.ime_next {
            CpuState { ime: true, ime_next: false, ..self }
        } else {
            self
        }
    }

    /// The machine with the picture-processing unit advanced by one machine
    /// cycle.
    pub open spec fn ticked(self) -> CpuState {
        CpuState { bus: self.bus.tick(DOTS_PER_CYCLE), ..self }
    }

    /// The machine after one machine cycle. A stopped or errored processor
    /// does nothing at all.
    pub open spec fn after_step(self) -> CpuState {
        if self.status == CpuStatus::Stopped || self.status == CpuStatus::Errored {
            self
        } else if self.latched().step_count == 0 {
            self.latched().begun().ticked()
        } else {
            self.latched().worked().ticked()
        }
    }
}

/// A stopped or errored processor is frozen: a step changes nothing.
pub proof fn lemma_frozen_when_stopped(state: CpuState)
    requires
        state.status == CpuStatus::Stopped || state.status == CpuStatus::Errored,
    ensures
        state.after_step() == state,
{
}

/// An unassigned opcode leaves the processor errored, and so it stays.
pub proof fn lemma_unassigned_opcode_errors(state: CpuState, opcode: u8)
    requires
        instructions::is_unassigned(opcode),
    ensures
        decode(opcode).0 is Illegal,
        state.after_instruction(decode(opcode).0).status == CpuStatus::Errored,
        state.after_instruction(decode(opcode).0).after_step() == state.after_instruction(
            decode(opcode).0,
        ),
{
    reveal(CpuState::after_control);
}

/// The processor with the machine it drives.
pub struct Cpu {
    pub status: CpuStatus,
    pub register: Register,
    pub program_counter: u16,
    pub stack_pointer: u16,
    pub memory: MemoryBus,
    /// Machine cycles the current instruction still takes; 0 between
    /// instructions.
    pub step_count: u8,
    /// The instruction that is being executed.
    pub instruction: Instruction,
    pub ime: bool,
    /// Set by EI: interrupts are enabled at the start of the next cycle.
    pub ime_next: bool,
}

impl View for Cpu {
    type V = CpuState;

    open spec fn view(&self) -> CpuState {
        CpuState {
            status: self.status,
            register: self.register,
            program_counter: self.program_counter,
            stack_pointer: self.stack_pointer,
            bus: self.memory@,
            step_count: self.step_count,
            instruction: self.instruction,
            ime: self.ime,
            ime_next: self.ime_next,
        }
    }
}

impl Cpu {
    /// Runs the machine for one machine cycle.
    ///
    /// The step keeps the invariant of the picture-processing unit, leaves
    /// the low nibble of F clear, and marks a frame ready only when the unit
    /// enters the vertical blank.
    pub fn step(&mut self)
        ensures
            final(self)@ == old(self)@.after_step(),
            old(self)@.inv() ==> final(self)@.inv(),
            final(self).register.f() & 0x0F == 0,
            final(self)@.bus.ppu.frame_ready == (old(self)@.bus.ppu.frame_ready
                || entered_vblank(old(self)@, final(self)@)),
    {
        if self.status == CpuStatus::Errored || self.status == CpuStatus::Stopped {
            proof {
                registers::lemma_low_nibble_clear(self.register);
            }
            return ;
        }
        if self.ime_next {
            self.ime = true;
            self.ime_next = false;
        }
        if self.step_count == 0 {
            let pending: u8 = self.memory.get_interrupt_enable()
                & self.memory.get_interrupt_flags() & 0x1F;
            if self.ime && pending != 0 {
                self.service(pending);
            } else if self.status == CpuStatus::Halted {
                if pending != 0 {
                    self.status = CpuStatus::Running;
                }
            } else {
                let opcode = self.fetch();
                let (instruction, cycles) = Instruction::get_instruction(&opcode);
                self.instruction = instruction;
                self.step_count = cycles;
                self.work();
            }
        } else {
            self.work();
        }
        proof {
            crate::memory::lemma_tick_frame_ready(self.memory@, DOTS_PER_CYCLE);
            registers::lemma_low_nibble_clear(self.register);
        }
        self.memory.step_ppu(DOTS_PER_CYCLE);
    }

    /// One cycle of the instruction under way.
    fn work(&mut self)
        ensures
            final(self)@ == old(self)@.worked(),
            old(self)@.steady(final(self)@),
    {
        if self.step_count > 1 {
            self.step_count -= 1;
        } else {
            self.process_instruction();
        }
    }

    /// Turns to the pending interrupt of highest priority.
    fn service(&mut self, pending: u8)
        requires
            pending == old(self)@.pending(),
        ensures
            final(self)@ == old(self)@.serviced(first_pending(pending)),
            old(self)@.steady(final(self)@),
    {
        let interrupt = if pending & 0x01 != 0 {
            Interrupt::VBlank
        } else if pending & 0x02 != 0 {
            Interrupt::LCD
        } else if pending & 0x04 != 0 {
            Interrupt::Timer
        } else if pending & 0x08 != 0 {
            Interrupt::Serial
        } else {
            Interrupt::Joypad
        };
        self.status = CpuStatus::Running;
        self.ime = false;
        self.memory.acknowledge_interrupt(interrupt);
        let pc = self.program_counter;
        self.push_word(pc);
        self.program_counter = interrupt.vector();
        assert(self@ == old(self)@.serviced(first_pending(pending)));
    }

    /// A machine after power-on with a cartridge.
    pub fn new(cart: Cart) -> (r: Self)
        ensures
            r@ == CpuState::power_on(cart@),
            r@.inv(),
    {
        let mut cpu = Self {
            status: CpuStatus::Running,
            ime_next: false,
            step_count: 0,
            ime: false,
            instruction: Instruction::Nop,
            memory: MemoryBus::new(cart),
            program_counter: 0x0000,
            stack_pointer: 0xFFFF,
            register: Register::new(),
        };
        cpu.reset();
        assert(cpu@ == CpuState::power_on(cart@));
        cpu
    }

    /// Asks for an interrupt: sets its bit in IF.
    pub fn request_interrupt(&mut self, interrupt: Interrupt)
        ensures
            final(self)@ == (CpuState {
                bus: old(self)@.bus.with_interrupts(interrupt.mask_spec()),
                ..old(self)@
            }),
    {
        self.memory.request_interrupt(interrupt);
    }

    /// Puts the processor, the picture-processing unit and the I/O registers
    /// back to their state after the boot program, whatever ran before.
    pub fn reset(&mut self)
        ensures
            final(self)@ == old(self)@.reset(),
            final(self)@.inv(),
            final(self).register.af() == 0x01B0,
            final(self).register.bc() == 0x0013,
            final(self).register.de() == 0x00D8,
            final(self).register.hl() == 0x014D,
    {
        self.status = CpuStatus::Running;
        self.ime = false;
        self.ime_next = false;
        self.step_count = 0;
        self.instruction = Instruction::Nop;
        self.program_counter = 0x0100;
        self.stack_pointer = 0xFFFE;
        self.register.set_af(0x01B0);
        self.register.set_bc(0x0013);
        self.register.set_de(0x00D8);
        self.register.set_hl(0x014D);
        assert(self.register == boot_registers()) by {
            assert(0xB0u8 & 0x80 != 0 && 0xB0u8 & 0x40 == 0 && 0xB0u8 & 0x20 != 0 && 0xB0u8 & 0x10
                != 0) by (bit_vector);
        }
        self.memory.boot();
        assert(self@ == old(self)@.reset());
    }

    /// Writes a byte through the bus.
    pub fn write(&mut self, addr: &u16, value: u8)
        ensures
            final(self)@ == old(self)@.written(*addr, value),
            old(self)@.steady(final(self)@),
    {
        self.memory.write(*addr, value);
    }

    /// Reads a byte through the bus.
    pub fn read(&self, addr: &u16) -> (r: u8)
        ensures
            r == self@.read(*addr),
    {
        self.memory.read(*addr)
    }

    /// Reads the byte at the program counter and moves past it.
    pub fn fetch(&mut self) -> (r: u8)
        ensures
            r == old(self)@.immediate(),
            final(self)@ == old(self)@.skipped(1),
    {
        let value = self.memory.read(self.program_counter);
        self.program_counter = self.program_counter.wrapping_add(1);
        value
    }

    /// Reads the two bytes at the program counter, low byte first, and moves
    /// past them.
    pub fn fetch_word(&mut self) -> (r: u16)
        ensures
            r == old(self)@.immediate16(),
            final(self)@ == old(self)@.skipped(2),
    {
        let low = self.fetch();
        let high = self.fetch();
        alu::make_word(high, low)
    }

    /// Pushes a sixteen-bit value onto the stack.
    pub fn push_word(&mut self, value: u16)
        ensures
            final(self)@ == old(self)@.pushed(value),
            old(self)@.steady(final(self)@),
    {
        self.stack_pointer = self.stack_pointer.wrapping_sub(1);
        let sp = self.stack_pointer;
        self.write(&sp, (value / 256) as u8);
        self.stack_pointer = self.stack_pointer.wrapping_sub(1);
        let sp = self.stack_pointer;
        self.write(&sp, (value % 256) as u8);
        assert(self@ == old(self)@.pushed(value));
    }

    /// Takes a sixteen-bit value off the stack.
    pub fn pop_word(&mut self) -> (r: u16)
        ensures
            r == old(self)@.top(),
            final(self)@ == old(self)@.popped(),
    {
        let low = self.read(&self.stack_pointer);
        self.stack_pointer = self.stack_pointer.wrapping_add(1);
        let high = self.read(&self.stack_pointer);
        self.stack_pointer = self.stack_pointer.wrapping_add(1);
        alu::make_word(high, low)
    }

    /// Whether the condition of a jump holds.
    pub fn condition_holds(&self, condition: JumpCondition) -> (r: bool)
        ensures
            r == self@.holds(condition),
    {
        match condition {
            JumpCondition::Always => true,
            JumpCondition::Z => self.register.zero,
            JumpCondition::C => self.register.carry,
            JumpCondition::NZ => !self.register.zero,
            JumpCondition::NC => !self.register.carry,
        }
    }

    /// Sets or clears a flag.
    pub fn update_flag(&mut self, flag: Flag, value: bool)
        ensures
            final(self)@ == old(self)@.with_flag(flag, value),
    {
        match flag {
            Flag::Z => self.register.zero = value,
            Flag::N => self.register.subtract = value,
            Flag::H => self.register.half_carry = value,
            Flag::C => self.register.carry = value,
        }
    }

    /// Sets a flag.
    pub fn set_flag(&mut self, flag: Flag)
        ensures
            final(self)@ == old(self)@.with_flag(flag, true),
    {
        self.update_flag(flag, true);
    }

    /// Clears a flag.
    pub fn clear_flag(&mut self, flag: Flag)
        ensures
            final(self)@ == old(self)@.with_flag(flag, false),
    {
        self.update_flag(flag, false);
    }

    /// Reads a flag.
    pub fn get_flag(&self, flag: Flag) -> (r: bool)
        ensures
            r == self@.flag(flag),
    {
        match flag {
            Flag::Z => self.register.zero,
            Flag::N => self.register.subtract,
            Flag::H => self.register.half_carry,
            Flag::C => self.register.carry,
        }
    }

    /// `a + b`: the sum, the carry out of bit 7 and the carry out of bit 3.
    pub fn addition(a: &u8, b: &u8) -> (r: (u8, bool, bool))
        ensures
            r == (add8(*a, *b, false).value, add8(*a, *b, false).carry, add8(
                *a,
                *b,
                false,
            ).half_carry),
    {
        let sum = add_bytes(*a, *b, false);
        (sum.value, sum.carry, sum.half_carry)
    }

    /// `a - b`: the difference, the borrow into bit 7 and the borrow into
    /// bit 3.
    pub fn subtract(a: &u8, b: &u8) -> (r: (u8, bool, bool))
        ensures
            r == (sub8(*a, *b, false).value, sub8(*a, *b, false).carry, sub8(
                *a,
                *b,
                false,
            ).half_carry),
    {
        let difference = subtract_bytes(*a, *b, false);
        (difference.value, difference.carry, difference.half_carry)
    }

    /// Whether a complete frame waits to be taken.
    pub fn is_frame_ready(&self) -> (r: bool)
        ensures
            r == self@.bus.ppu.frame_ready,
    {
        self.memory.is_frame_ready()
    }

    /// Takes the frame: hands it out and clears the mark that it is ready,
    /// which stays clear until the picture-processing unit next enters the
    /// vertical blank.
    pub fn get_framebuffer(&mut self) -> (r: &[u8; 92160])
        ensures
            r@ == old(self)@.bus.ppu.framebuffer,
            !final(self)@.bus.ppu.frame_ready,
            final(self)@ == (CpuState {
                bus: BusState {
                    ppu: PpuState { frame_ready: false, ..old(self)@.bus.ppu },
                    ..old(self)@.bus
                },
                ..old(self)@
            }),
            old(self)@.inv() ==> final(self)@.inv(),
    {
        self.memory.get_framebuffer()
    }

    /// The program counter.
    pub fn get_pc(&self) -> (r: u16)
        ensures
            r == self@.program_counter,
    {
        self.program_counter
    }

    /// The stack pointer.
    pub fn get_sp(&self) -> (r: u16)
        ensures
            r == self@.stack_pointer,
    {
        self.stack_pointer
    }

    /// The pair AF.
    pub fn get_af(&self) -> (r: u16)
        ensures
            r == self@.register.af(),
    {
        self.register.get_af()
    }

    /// The pair BC.
    pub fn get_bc(&self) -> (r: u16)
        ensures
            r == self@.register.bc(),
    {
        self.register.get_bc()
    }

    /// The pair DE.
    pub fn get_de(&self) -> (r: u16)
        ensures
            r == self@.register.de(),
    {
        self.register.get_de()
    }

    /// The pair HL.
    pub fn get_hl(&self) -> (r: u16)
        ensures
            r == self@.register.hl(),
    {
        self.register.get_hl()
    }

    /// The flags Z, N, H and C.
    pub fn get_flags(&self) -> (r: (bool, bool, bool, bool))
        ensures
            r == (
                self@.register.zero,
                self@.register.subtract,
                self@.register.half_carry,
                self@.register.carry,
            ),
    {
        (
            self.register.zero,
            self.register.subtract,
            self.register.half_carry,
            self.register.carry,
        )
    }

    /// The instruction that is being executed.
    pub fn get_current_instruction(&self) -> (r: Instruction)
        ensures
            r == self@.instruction,
    {
        self.instruction
    }

    /// Reads a byte through the bus.
    pub fn read_memory(&self, addr: u16) -> (r: u8)
        ensures
            r == self@.read(addr),
    {
        self.memory.read(addr)
    }
}

} // verus!

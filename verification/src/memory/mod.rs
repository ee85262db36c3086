//! The memory bus: one decoder for the whole sixteen-bit address space.
pub mod cart;
pub mod mbc;

use crate::cpu::instructions::{CpuStatus, Interrupt};
use crate::ppu::{LcdMode, Ppu, PpuState, Raised};
use cart::Cart;
use mbc::MbcState;
use vstd::prelude::*;

verus! {

/// Address of the interrupt-flag register IF.
pub const INTERRUPT_FLAGS: u16 = 0xFF0F;

/// The bus and what hangs on it, as plain values.
#[verifier::ext_equal]
pub struct BusState {
    /// The bank controller of the cartridge.
    pub cart: MbcState,
    /// The picture-processing unit.
    pub ppu: PpuState,
    /// Work RAM, 0xC000..=0xDFFF.
    pub w_ram: Seq<u8>,
    /// The I/O registers at 0xFF00..=0xFF7F, but for those of the
    /// picture-processing unit.
    pub io: Seq<u8>,
    /// High RAM, 0xFF80..=0xFFFE.
    pub h_ram: Seq<u8>,
    /// The interrupt-enable register at 0xFFFF.
    pub ie: u8,
}

/// The value the boot program leaves in the I/O register at 0xFF00 +
/// `offset`, for the registers it sets.
pub open spec fn boot_io_value(offset: int) -> Option<u8> {
    if offset == 0x05 || offset == 0x06 || offset == 0x07 || offset == 0x17 || offset == 0x21
        || offset == 0x22 {
        Some(0x00u8)
    } else if offset == 0x10 {
        Some(0x80u8)
    } else if offset == 0x11 || offset == 0x14 || offset == 0x19 || offset == 0x1E || offset
        == 0x23 {
        Some(0xBFu8)
    } else if offset == 0x12 || offset == 0x25 {
        Some(0xF3u8)
    } else if offset == 0x16 {
        Some(0x3Fu8)
    } else if offset == 0x1A {
        Some(0x7Fu8)
    } else if offset == 0x1B || offset == 0x20 {
        Some(0xFFu8)
    } else if offset == 0x1C {
        Some(0x9Fu8)
    } else if offset == 0x24 {
        Some(0x77u8)
    } else if offset == 0x26 {
        Some(0xF1u8)
    } else {
        None
    }
}

/// The I/O registers after the boot program: those it sets at their boot
/// values, the others as they were.
pub open spec fn boot_io(io: Seq<u8>) -> Seq<u8> {
    Seq::new(
        0x80,
        |i: int|
            match boot_io_value(i) {
                Some(value) => value,
                None => io[i],
            },
    )
}

/// The bits a step of the picture-processing unit sets in IF.
pub open spec fn raised_bits(raised: Raised) -> u8 {
    ((if raised.vblank { 1int } else { 0 }) + (if raised.lcd { 2int } else { 0 })) as u8
}

impl BusState {
    /// The bus after power-on around a cartridge: every memory cleared.
    pub open spec fn power_on(cart: MbcState) -> BusState {
        BusState {
            cart,
            ppu: PpuState::power_on(),
            w_ram: Seq::new(0x2000, |i: int| 0u8),
            io: Seq::new(0x80, |i: int| 0u8),
            h_ram: Seq::new(0x80, |i: int| 0u8),
            ie: 0,
        }
    }

    /// The memories have their sizes.
    pub open spec fn wf(self) -> bool {
        &&& self.w_ram.len() == 0x2000
        &&& self.io.len() == 0x80
        &&& self.h_ram.len() == 0x80
        &&& self.ppu.vram.len() == 0x2000
        &&& self.ppu.oam.len() == 0xA0
    }

    /// What a read at an address returns.
    ///
    /// | addresses        | read from                                      |
    /// |------------------|------------------------------------------------|
    /// | 0x0000..=0x7FFF  | the cartridge                                  |
    /// | 0x8000..=0x9FFF  | video RAM                                      |
    /// | 0xA000..=0xBFFF  | the cartridge                                  |
    /// | 0xC000..=0xDFFF  | work RAM                                       |
    /// | 0xE000..=0xFDFF  | work RAM at the address less 0x2000            |
    /// | 0xFE00..=0xFE9F  | the object attribute memory                    |
    /// | 0xFEA0..=0xFEFF  | nothing: 0xFF                                  |
    /// | 0xFF00..=0xFF7F  | I/O registers; 0xFF40..=0xFF4B the LCD registers |
    /// | 0xFF80..=0xFFFE  | high RAM                                       |
    /// | 0xFFFF           | the interrupt-enable register                  |
    ///
    /// Where the cartridge has nothing to give, the read returns 0xFF.
    #[verifier::opaque]
    pub open spec fn read(self, addr: u16) -> u8 {
        if addr < 0x8000 || 0xA000 <= addr < 0xC000 {
            match self.cart.read(addr) {
                Some(value) => value,
                None => 0xFF,
            }
        } else if addr < 0xA000 {
            self.ppu.read_vram(addr)
        } else if addr < 0xE000 {
            self.w_ram[addr - 0xC000]
        } else if addr < 0xFE00 {
            self.w_ram[addr - 0xE000]
        } else if addr < 0xFEA0 {
            self.ppu.read_oam(addr)
        } else if addr < 0xFF00 {
            0xFF
        } else if 0xFF40 <= addr <= 0xFF4B {
            self.ppu.registers.read(addr)
        } else if addr < 0xFF80 {
            self.io[addr - 0xFF00]
        } else if addr < 0xFFFF {
            self.h_ram[addr - 0xFF80]
        } else {
            self.ie
        }
    }

    /// The bus after a write at an address. Writes go where reads come from;
    /// a write to 0xFEA0..=0xFEFF is dropped.
    #[verifier::opaque]
    pub open spec fn write(self, addr: u16, value: u8) -> BusState {
        if addr < 0x8000 || 0xA000 <= addr < 0xC000 {
            BusState { cart: self.cart.write(addr, value), ..self }
        } else if addr < 0xA000 {
            BusState { ppu: self.ppu.write_vram(addr, value), ..self }
        } else if addr < 0xE000 {
            BusState { w_ram: self.w_ram.update(addr - 0xC000, value), ..self }
        } else if addr < 0xFE00 {
            BusState { w_ram: self.w_ram.update(addr - 0xE000, value), ..self }
        } else if addr < 0xFEA0 {
            BusState { ppu: self.ppu.write_oam(addr, value), ..self }
        } else if addr < 0xFF00 {
            self
        } else if 0xFF40 <= addr <= 0xFF4B {
            BusState {
                ppu: PpuState { registers: self.ppu.registers.write(addr, value), ..self.ppu },
                ..self
            }
        } else if addr < 0xFF80 {
            BusState { io: self.io.update(addr - 0xFF00, value), ..self }
        } else if addr < 0xFFFF {
            BusState { h_ram: self.h_ram.update(addr - 0xFF80, value), ..self }
        } else {
            BusState { ie: value, ..self }
        }
    }

    /// The bus with bits taken out of IF.
    pub open spec fn without_interrupts(self, bits: u8) -> BusState {
        BusState { io: self.io.update(0x0F, self.io[0x0F] & !bits), ..self }
    }

    /// The bus after a reset of the machine: the picture-processing unit as
    /// after power-on, the I/O registers the boot program sets at their boot
    /// values, IE cleared. The cartridge, work RAM and high RAM stay as they
    /// are.
    pub open spec fn booted(self) -> BusState {
        BusState { ppu: PpuState::power_on(), io: boot_io(self.io), ie: 0, ..self }
    }

    /// Whether another state of the bus has the picture-processing unit where
    /// this one has it: on the same line, in the same mode, a frame ready or
    /// not as here, and within its invariant if it is here.
    pub open spec fn steady(self, after: BusState) -> bool {
        &&& self.ppu.inv() ==> after.ppu.inv()
        &&& after.ppu.frame_ready == self.ppu.frame_ready
        &&& after.ppu.mode == self.ppu.mode
        &&& after.ppu.scanline == self.ppu.scanline
    }

    /// The interrupt-flag register IF.
    pub open spec fn interrupt_flags(self) -> u8 {
        self.io[0x0F]
    }

    /// The bus with bits added to IF.
    #[verifier::opaque]
    pub open spec fn with_interrupts(self, bits: u8) -> BusState {
        BusState { io: self.io.update(0x0F, self.io[0x0F] | bits), ..self }
    }

    /// The bus after the picture-processing unit has advanced by `cycles`
    /// dots: the interrupts it raises are added to IF.
    #[verifier::opaque]
    pub open spec fn tick(self, cycles: u8) -> BusState {
        (BusState { ppu: self.ppu.advance(cycles).0, ..self }).with_interrupts(
            raised_bits(self.ppu.advance(cycles).1),
        )
    }
}

/// A byte written to work RAM, to its echo or to high RAM is read back.
pub proof fn lemma_ram_round_trip(bus: BusState, addr: u16, value: u8)
    requires
        bus.wf(),
        0xC000 <= addr < 0xFE00 || 0xFF80 <= addr < 0xFFFF,
    ensures
        bus.write(addr, value).read(addr) == value,
        bus.write(addr, value).wf(),
{
    reveal(BusState::read);
    reveal(BusState::write);
}

/// Work RAM and its echo are the same memory: a byte written to one is read
/// from the other.
pub proof fn lemma_echo_mirrors_work_ram(bus: BusState, addr: u16, value: u8)
    requires
        bus.wf(),
        0xC000 <= addr < 0xDE00,
    ensures
        bus.write(addr, value).read((addr + 0x2000) as u16) == value,
        bus.write((addr + 0x2000) as u16, value).read(addr) == value,
{
    reveal(BusState::read);
    reveal(BusState::write);
}

/// The addresses 0xFEA0..=0xFEFF hold nothing: a write there changes nothing
/// and a read returns 0xFF.
pub proof fn lemma_unusable_region(bus: BusState, addr: u16, value: u8)
    requires
        0xFEA0 <= addr <= 0xFEFF,
    ensures
        bus.write(addr, value) == bus,
        bus.read(addr) == 0xFF,
        bus.write(addr, value).read(addr) == 0xFF,
{
    reveal(BusState::read);
    reveal(BusState::write);
}

/// A write through the bus never marks a frame ready, never takes the mark
/// away, and never changes the mode or the line of the picture-processing
/// unit. A write to video RAM while the unit draws, or to the object
/// attribute memory while it scans or draws, changes nothing at all.
pub proof fn lemma_write_leaves_unit_running(bus: BusState, addr: u16, value: u8)
    ensures
        bus.write(addr, value).ppu.frame_ready == bus.ppu.frame_ready,
        bus.write(addr, value).ppu.mode == bus.ppu.mode,
        bus.write(addr, value).ppu.scanline == bus.ppu.scanline,
        bus.write(addr, value).ppu.dots == bus.ppu.dots,
        0x8000 <= addr < 0xA000 && !bus.ppu.vram_open() ==> bus.write(addr, value) == bus
            && bus.read(addr) == 0xFF,
        0xFE00 <= addr < 0xFEA0 && !bus.ppu.oam_open() ==> bus.write(addr, value) == bus
            && bus.read(addr) == 0xFF,
{
    reveal(BusState::read);
    reveal(BusState::write);
}

/// A step of the picture-processing unit through the bus marks a frame ready
/// only by entering the vertical blank, and with the display off it changes
/// neither the unit nor IF.
pub proof fn lemma_tick_frame_ready(bus: BusState, cycles: u8)
    ensures
        bus.tick(cycles).ppu == bus.ppu.advance(cycles).0,
        bus.tick(cycles).ppu.frame_ready == (bus.ppu.frame_ready || (bus.ppu.mode
            == LcdMode::HBlank && bus.tick(cycles).ppu.mode == LcdMode::VBlank)),
        bus.ppu.inv() ==> bus.tick(cycles).ppu.inv(),
        !bus.ppu.registers.lcd_enabled() && bus.io.len() == 0x80 ==> bus.tick(cycles) == bus,
{
    reveal(BusState::tick);
    reveal(BusState::with_interrupts);
    crate::ppu::lemma_frame_ready_only_at_vblank(bus.ppu, cycles);
    if bus.ppu.inv() {
        crate::ppu::lemma_advance_keeps_inv(bus.ppu, cycles);
    }
    if !bus.ppu.registers.lcd_enabled() && bus.io.len() == 0x80 {
        let flags = bus.io[0x0F];
        assert(flags | 0 == flags) by (bit_vector);
        assert(bus.tick(cycles) =~~= bus);
    }
}

/// The memory bus. It owns the cartridge, the picture-processing unit and
/// the memories of the machine.
pub struct MemoryBus {
    pub cart: Cart,
    pub ppu: Ppu,
    /// Work RAM: bank 0 at 0xC000, bank 1 at 0xD000.
    pub w_ram: [u8; 0x2000],
    /// The I/O registers at 0xFF00..=0xFF7F. The entries at 0x40..=0x4B are
    /// not used: those registers live in the picture-processing unit.
    pub io_registers: [u8; 0x80],
    /// High RAM at 0xFF80..=0xFFFE; the last entry is not used.
    pub h_ram: [u8; 0x80],
    /// The interrupt-enable register.
    pub ie: u8,
}

impl View for MemoryBus {
    type V = BusState;

    open spec fn view(&self) -> BusState {
        self.state()
    }
}

impl MemoryBus {
    /// The bus and what hangs on it, as plain values.
    #[verifier::opaque]
    pub open spec fn state(&self) -> BusState {
        BusState {
            cart: self.cart@,
            ppu: self.ppu@,
            w_ram: self.w_ram@,
            io: self.io_registers@,
            h_ram: self.h_ram@,
            ie: self.ie,
        }
    }
}

/// The memories of every bus have their sizes.
pub proof fn lemma_memories_have_their_sizes(bus: &MemoryBus)
    ensures
        bus@.wf(),
{
    reveal(MemoryBus::state);
    reveal(Ppu::state);
}

impl MemoryBus {
    /// A bus after power-on around a cartridge.
    pub fn new(cart: Cart) -> (r: Self)
        ensures
            r@ == BusState::power_on(cart@),
            r@.wf(),
            r@.ppu.inv(),
    {
        proof {
            reveal(MemoryBus::state);
        }
        let r = Self {
            cart,
            ppu: Ppu::new(),
            w_ram: [0u8; 0x2000],
            io_registers: [0u8; 0x80],
            h_ram: [0u8; 0x80],
            ie: 0,
        };
        assert(r@ =~~= BusState::power_on(cart@));
        r
    }

    /// Reads the byte at an address.
    pub fn read(&self, addr: u16) -> (r: u8)
        ensures
            r == self@.read(addr),
    {
        proof {
            reveal(MemoryBus::state);
            reveal(BusState::read);
        }
        if addr < 0x8000 || (0xA000 <= addr && addr < 0xC000) {
            match self.cart.read(&addr) {
                Some(value) => value,
                None => 0xFF,
            }
        } else if addr < 0xA000 {
            self.ppu.read_vram(addr)
        } else if addr < 0xE000 {
            self.w_ram[(addr - 0xC000) as usize]
        } else if addr < 0xFE00 {
            self.w_ram[(addr - 0xE000) as usize]
        } else if addr < 0xFEA0 {
            self.ppu.read_oam(addr)
        } else if addr < 0xFF00 {
            0xFF
        } else if 0xFF40 <= addr && addr <= 0xFF4B {
            self.ppu.read_register(addr)
        } else if addr < 0xFF80 {
            self.io_registers[(addr - 0xFF00) as usize]
        } else if addr < 0xFFFF {
            self.h_ram[(addr - 0xFF80) as usize]
        } else {
            self.ie
        }
    }

    /// Writes a byte at an address. No write asks the processor to change its
    /// status: the result is always `None`.
    pub fn write(&mut self, addr: u16, value: u8) -> (r: Option<CpuStatus>)
        ensures
            final(self)@ == old(self)@.write(addr, value),
            r is None,
            old(self)@.steady(final(self)@),
    {
        proof {
            reveal(MemoryBus::state);
            reveal(BusState::write);
        }
        if addr < 0x8000 || (0xA000 <= addr && addr < 0xC000) {
            self.cart.write(&addr, value);
        } else if addr < 0xA000 {
            self.ppu.write_vram(addr, value);
        } else if addr < 0xE000 {
            self.w_ram[(addr - 0xC000) as usize] = value;
        } else if addr < 0xFE00 {
            self.w_ram[(addr - 0xE000) as usize] = value;
        } else if addr < 0xFEA0 {
            self.ppu.write_oam(addr, value);
        } else if addr < 0xFF00 {
            // Nothing answers at these addresses.
        } else if 0xFF40 <= addr && addr <= 0xFF4B {
            self.ppu.write_register(addr, value);
        } else if addr < 0xFF80 {
            self.io_registers[(addr - 0xFF00) as usize] = value;
        } else if addr < 0xFFFF {
            self.h_ram[(addr - 0xFF80) as usize] = value;
        } else {
            self.ie = value;
        }
        assert(self@ =~~= old(self)@.write(addr, value));
        None
    }

    /// Puts the picture-processing unit and the I/O registers back to their
    /// state after the boot program, and clears IE.
    pub fn boot(&mut self)
        ensures
            final(self)@ == old(self)@.booted(),
            final(self)@.ppu.inv(),
    {
        proof {
            reveal(MemoryBus::state);
        }
        self.ppu.reset();
        self.io_registers[0x05] = 0x00;
        self.io_registers[0x06] = 0x00;
        self.io_registers[0x07] = 0x00;
        self.io_registers[0x10] = 0x80;
        self.io_registers[0x11] = 0xBF;
        self.io_registers[0x12] = 0xF3;
        self.io_registers[0x14] = 0xBF;
        self.io_registers[0x16] = 0x3F;
        self.io_registers[0x17] = 0x00;
        self.io_registers[0x19] = 0xBF;
        self.io_registers[0x1A] = 0x7F;
        self.io_registers[0x1B] = 0xFF;
        self.io_registers[0x1C] = 0x9F;
        self.io_registers[0x1E] = 0xBF;
        self.io_registers[0x20] = 0xFF;
        self.io_registers[0x21] = 0x00;
        self.io_registers[0x22] = 0x00;
        self.io_registers[0x23] = 0xBF;
        self.io_registers[0x24] = 0x77;
        self.io_registers[0x25] = 0xF3;
        self.io_registers[0x26] = 0xF1;
        self.ie = 0x00;
        assert(self@ =~~= old(self)@.booted());
    }

    /// Takes back the request for an interrupt: clears its bit in IF.
    pub fn acknowledge_interrupt(&mut self, interrupt: Interrupt)
        ensures
            final(self)@ == old(self)@.without_interrupts(interrupt.mask_spec()),
            old(self)@.steady(final(self)@),
    {
        proof {
            reveal(MemoryBus::state);
        }
        let flags = self.io_registers[0x0F];
        self.io_registers[0x0F] = flags & !interrupt.mask();
        assert(self@ =~~= old(self)@.without_interrupts(interrupt.mask_spec()));
    }

    /// Asks for an interrupt: sets its bit in IF.
    pub fn request_interrupt(&mut self, interrupt: Interrupt)
        ensures
            final(self)@ == old(self)@.with_interrupts(interrupt.mask_spec()),
            old(self)@.steady(final(self)@),
    {
        proof {
            reveal(MemoryBus::state);
            reveal(BusState::with_interrupts);
        }
        let flags = self.io_registers[0x0F];
        self.io_registers[0x0F] = flags | interrupt.mask();
        assert(self@ =~~= old(self)@.with_interrupts(interrupt.mask_spec()));
    }

    /// The interrupt-flag register IF.
    pub fn get_interrupt_flags(&self) -> (r: u8)
        ensures
            r == self@.interrupt_flags(),
            r == self@.read(INTERRUPT_FLAGS),
    {
        proof {
            reveal(MemoryBus::state);
            reveal(BusState::read);
        }
        self.io_registers[0x0F]
    }

    /// The interrupt-enable register IE.
    pub fn get_interrupt_enable(&self) -> (r: u8)
        ensures
            r == self@.ie,
    {
        proof {
            reveal(MemoryBus::state);
        }
        self.ie
    }

    /// Advances the picture-processing unit by `cycles` dots and adds the
    /// interrupts it raises to IF. Returns the one of higher priority.
    pub fn step_ppu(&mut self, cycles: u8) -> (r: Option<Interrupt>)
        ensures
            final(self)@ == old(self)@.tick(cycles),
            r == old(self)@.ppu.advance(cycles).1.first_spec(),
            old(self)@.ppu.inv() ==> final(self)@.ppu.inv(),
    {
        proof {
            reveal(MemoryBus::state);
            reveal(BusState::tick);
            reveal(BusState::with_interrupts);
        }
        let raised = self.ppu.advance(cycles);
        let vblank: u8 = if raised.vblank { 1 } else { 0 };
        let lcd: u8 = if raised.lcd { 2 } else { 0 };
        let flags = self.io_registers[0x0F];
        self.io_registers[0x0F] = flags | (vblank + lcd);
        assert(self@ =~~= old(self)@.tick(cycles));
        raised.first()
    }

    /// Whether a complete frame waits to be taken.
    pub fn is_frame_ready(&self) -> (r: bool)
        ensures
            r == self@.ppu.frame_ready,
    {
        proof {
            reveal(MemoryBus::state);
        }
        self.ppu.is_frame_ready()
    }

    /// Takes the frame: hands it out and clears the mark that it is ready.
    pub fn get_framebuffer(&mut self) -> (r: &[u8; 92160])
        ensures
            final(self)@ == (BusState {
                ppu: PpuState { frame_ready: false, ..old(self)@.ppu },
                ..old(self)@
            }),
            r@ == old(self)@.ppu.framebuffer,
            !final(self)@.ppu.frame_ready,
            old(self)@.ppu.inv() ==> final(self)@.ppu.inv(),
    {
        proof {
            reveal(MemoryBus::state);
        }
        self.ppu.get_framebuffer()
    }

    /// The picture-processing unit.
    pub fn get_ppu(&self) -> (r: &Ppu)
        ensures
            *r == self.ppu,
    {
        proof {
            reveal(MemoryBus::state);
        }
        &self.ppu
    }

    /// The picture-processing unit, to change it.
    pub fn get_ppu_mut(&mut self) -> (r: &mut Ppu)
        ensures
            *r == old(self).ppu,
            final(self).ppu == *final(r),
            final(self).cart == old(self).cart,
            final(self).w_ram == old(self).w_ram,
            final(self).io_registers == old(self).io_registers,
            final(self).h_ram == old(self).h_ram,
            final(self).ie == old(self).ie,
    {
        proof {
            reveal(MemoryBus::state);
        }
        &mut self.ppu
    }
}

} // verus!

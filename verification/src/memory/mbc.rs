//! Bank controllers: what sits between the bus and the ROM and RAM chips of a
//! cartridge.
use super::cart::{CartError, MapperType};
use vstd::prelude::*;

verus! {

/// What a bank controller holds, as plain values.
///
/// `rom_bank` is the five-bit primary register, `ram_bank` the two-bit
/// secondary register, `ram_mode` the banking-mode latch.
pub struct MbcState {
    pub mapper: MapperType,
    pub rom: Seq<u8>,
    pub ram: Seq<u8>,
    pub rom_bank: u8,
    pub ram_bank: u8,
    pub ram_enabled: bool,
    pub ram_mode: bool,
    pub rom_banks: u16,
    pub ram_banks: u8,
}

/// The byte of a chip at an offset; 0xFF where the chip has no such byte.
pub open spec fn chip_byte(chip: Seq<u8>, at: int) -> u8 {
    if 0 <= at < chip.len() {
        chip[at]
    } else {
        0xFF
    }
}

/// The mask that keeps a bank number within `banks` banks, a power of two.
pub open spec fn bank_mask(banks: u16) -> u16 {
    if banks == 0 {
        0
    } else {
        (banks - 1) as u16
    }
}

impl MbcState {
    /// A cartridge without a controller around the given ROM.
    pub open spec fn plain(rom: Seq<u8>) -> MbcState {
        MbcState {
            mapper: MapperType::RomOnly,
            rom,
            ram: Seq::empty(),
            rom_bank: 1,
            ram_bank: 0,
            ram_enabled: false,
            ram_mode: false,
            rom_banks: 2,
            ram_banks: 0,
        }
    }

    /// An MBC1 after power-on: bank 1 selected, RAM cleared and disabled, ROM
    /// banking mode.
    pub open spec fn mbc1(rom: Seq<u8>, ram_size: u32, rom_banks: u16, ram_banks: u8) -> MbcState {
        MbcState {
            mapper: MapperType::MBC1,
            rom,
            ram: Seq::new(ram_size as nat, |i: int| 0u8),
            rom_bank: 1,
            ram_bank: 0,
            ram_enabled: false,
            ram_mode: false,
            rom_banks,
            ram_banks,
        }
    }

    /// The ROM bank an MBC1 shows at 0x0000..=0x3FFF.
    pub open spec fn low_bank(self) -> u16 {
        if self.ram_mode {
            ((self.ram_bank as u16) << 5) & bank_mask(self.rom_banks)
        } else {
            0
        }
    }

    /// The ROM bank an MBC1 shows at 0x4000..=0x7FFF.
    pub open spec fn high_bank(self) -> u16 {
        ((self.rom_bank as u16) | ((self.ram_bank as u16) << 5)) & bank_mask(self.rom_banks)
    }

    /// The RAM bank an MBC1 shows at 0xA000..=0xBFFF.
    pub open spec fn selected_ram_bank(self) -> u16 {
        if self.ram_mode {
            (self.ram_bank as u16) & bank_mask(self.ram_banks as u16)
        } else {
            0
        }
    }

    /// Offset into the RAM chip of an address in 0xA000..=0xBFFF.
    pub open spec fn ram_offset(self, addr: u16) -> int {
        self.selected_ram_bank() * 0x2000 + (addr - 0xA000)
    }

    /// What a read returns: `None` outside the two windows of the cartridge.
    pub open spec fn read(self, addr: u16) -> Option<u8> {
        if self.mapper == MapperType::MBC1 {
            if addr < 0x4000 {
                Some(chip_byte(self.rom, self.low_bank() * 0x4000 + addr))
            } else if addr < 0x8000 {
                Some(chip_byte(self.rom, self.high_bank() * 0x4000 + (addr - 0x4000)))
            } else if 0xA000 <= addr < 0xC000 {
                if self.ram_enabled {
                    Some(chip_byte(self.ram, self.ram_offset(addr)))
                } else {
                    Some(0xFFu8)
                }
            } else {
                None
            }
        } else {
            if addr < 0x8000 {
                Some(chip_byte(self.rom, addr as int))
            } else if 0xA000 <= addr < 0xC000 {
                Some(0xFFu8)
            } else {
                None
            }
        }
    }

    /// The controller after a write.
    pub open spec fn write(self, addr: u16, value: u8) -> MbcState {
        if self.mapper == MapperType::MBC1 {
            if addr < 0x2000 {
                MbcState { ram_enabled: value & 0x0F == 0x0A, ..self }
            } else if addr < 0x4000 {
                MbcState { rom_bank: if value & 0x1F == 0 { 1 } else { value & 0x1F }, ..self }
            } else if addr < 0x6000 {
                MbcState { ram_bank: value & 0x03, ..self }
            } else if addr < 0x8000 {
                MbcState { ram_mode: value & 0x01 != 0, ..self }
            } else if 0xA000 <= addr < 0xC000 && self.ram_enabled && self.ram_offset(addr)
                < self.ram.len() {
                MbcState { ram: self.ram.update(self.ram_offset(addr), value), ..self }
            } else {
                self
            }
        } else {
            self
        }
    }
}

/// On an MBC1 a write to 0x0000..=0x1FFF enables the RAM if the low nibble of
/// the value is 0xA and disables it otherwise. While the RAM is disabled it
/// reads 0xFF and ignores writes.
pub proof fn lemma_ram_enable(state: MbcState, addr: u16, value: u8, ram_addr: u16, byte: u8)
    requires
        state.mapper == MapperType::MBC1,
        addr < 0x2000,
        0xA000 <= ram_addr < 0xC000,
    ensures
        state.write(addr, value).ram_enabled == (value & 0x0F == 0x0A),
        !state.ram_enabled ==> state.read(ram_addr) == Some(0xFFu8) && state.write(ram_addr, byte)
            == state,
{
}

/// On an MBC1 a write to 0x2000..=0x3FFF stores the low five bits of the value
/// as the ROM bank, and 1 in place of 0: a write of 0 stores 1.
pub proof fn lemma_rom_bank_never_zero(state: MbcState, addr: u16, value: u8)
    requires
        state.mapper == MapperType::MBC1,
        0x2000 <= addr < 0x4000,
    ensures
        state.write(addr, 0).rom_bank == 1,
        state.write(addr, value).rom_bank != 0,
        value & 0x1F != 0 ==> state.write(addr, value).rom_bank == value & 0x1F,
{
    assert(0u8 & 0x1F == 0) by (bit_vector);
}

/// On an MBC1 in ROM banking mode with a ROM of `rom_banks` banks of 16 KiB, a
/// read at 0x4000..=0x7FFF returns the byte of the ROM bank selected: the
/// primary register, extended by the secondary, within the banks there are.
pub proof fn lemma_switched_bank_read(state: MbcState, addr: u16)
    requires
        state.mapper == MapperType::MBC1,
        0x4000 <= addr < 0x8000,
        state.rom.len() == state.rom_banks * 0x4000,
        state.rom_banks > 0,
    ensures
        state.read(addr) == Some(state.rom[state.high_bank() * 0x4000 + (addr - 0x4000)]),
        state.high_bank() < state.rom_banks,
{
    let selected = (state.rom_bank as u16) | ((state.ram_bank as u16) << 5);
    let mask = bank_mask(state.rom_banks);
    assert(selected & mask <= mask) by (bit_vector);
}

/// What the bus asks of a cartridge: two windows to read, control and RAM
/// writes, and the kind of controller.
pub trait MemoryBankController {
    /// The controller as plain values.
    spec fn state(&self) -> MbcState;

    fn read(&self, addr: u16) -> (r: Option<u8>)
        ensures
            r == self.state().read(addr),
    ;

    fn write(&mut self, addr: u16, value: u8)
        ensures
            final(self).state() == old(self).state().write(addr, value),
    ;

    fn get_mapper_type(&self) -> (r: MapperType)
        ensures
            r == self.state().mapper,
    ;
}

/// The byte of a chip at an offset; 0xFF where the chip has no such byte.
fn byte_at(chip: &Vec<u8>, at: usize) -> (r: u8)
    ensures
        r == chip_byte(chip@, at as int),
{
    if at < chip.len() {
        chip[at]
    } else {
        0xFF
    }
}

/// The mask that keeps a bank number within `banks` banks.
fn mask_for(banks: u16) -> (r: u16)
    ensures
        r == bank_mask(banks),
{
    if banks == 0 {
        0
    } else {
        banks - 1
    }
}

/// A cartridge without a controller: 32 KiB of ROM and nothing else.
pub struct NoMBC {
    pub rom: Vec<u8>,
}

impl NoMBC {
    pub fn new(rom: Vec<u8>) -> (r: Self)
        ensures
            r.state() == MbcState::plain(rom@),
    {
        Self { rom }
    }
}

impl MemoryBankController for NoMBC {
    open spec fn state(&self) -> MbcState {
        MbcState::plain(self.rom@)
    }

    /// Reads the ROM directly; the RAM window reads 0xFF.
    fn read(&self, addr: u16) -> (r: Option<u8>) {
        if addr < 0x8000 {
            Some(byte_at(&self.rom, addr as usize))
        } else if 0xA000 <= addr && addr < 0xC000 {
            Some(0xFF)
        } else {
            None
        }
    }

    /// Ignores every write.
    fn write(&mut self, _addr: u16, _value: u8) {
    }

    fn get_mapper_type(&self) -> (r: MapperType) {
        MapperType::RomOnly
    }
}

/// The banking mode of an MBC1.
#[derive(Debug, Clone, Copy, PartialEq, Eq, Structural)]
pub enum MBC1Mode {
    /// The secondary register extends the ROM bank number.
    Rom,
    /// The secondary register also selects the RAM bank and the low ROM bank.
    Ram,
}

/// The MBC1 controller: up to 128 ROM banks and four RAM banks.
pub struct MBC1 {
    pub rom: Vec<u8>,
    pub ram: Vec<u8>,
    pub rom_bank: u8,
    pub ram_bank: u8,
    pub ram_enabled: bool,
    pub mode: MBC1Mode,
    pub rom_banks: u16,
    pub ram_banks: u8,
}

impl MBC1 {
    pub fn new(rom: Vec<u8>, ram_size: u32, rom_banks: u16, ram_banks: u8) -> (r: Self)
        ensures
            r.state() == MbcState::mbc1(rom@, ram_size, rom_banks, ram_banks),
    {
        let mut ram: Vec<u8> = Vec::new();
        let mut i: u32 = 0;
        while i < ram_size
            invariant
                i <= ram_size,
                ram@ == Seq::new(i as nat, |k: int| 0u8),
            decreases ram_size - i,
        {
            ram.push(0);
            i += 1;
        }
        Self {
            rom,
            ram,
            rom_bank: 1,
            ram_bank: 0,
            ram_enabled: false,
            mode: MBC1Mode::Rom,
            rom_banks,
            ram_banks,
        }
    }

    /// Offset into the RAM chip of an address in 0xA000..=0xBFFF.
    fn ram_index(&self, addr: u16) -> (r: usize)
        requires
            0xA000 <= addr < 0xC000,
        ensures
            r == self.state().ram_offset(addr),
    {
        let bank: u16 = match self.mode {
            MBC1Mode::Rom => 0,
            MBC1Mode::Ram => (self.ram_bank as u16) & mask_for(self.ram_banks as u16),
        };
        bank as usize * 0x2000 + (addr - 0xA000) as usize
    }
}

impl MemoryBankController for MBC1 {
    open spec fn state(&self) -> MbcState {
        MbcState {
            mapper: MapperType::MBC1,
            rom: self.rom@,
            ram: self.ram@,
            rom_bank: self.rom_bank,
            ram_bank: self.ram_bank,
            ram_enabled: self.ram_enabled,
            ram_mode: self.mode == MBC1Mode::Ram,
            rom_banks: self.rom_banks,
            ram_banks: self.ram_banks,
        }
    }

    fn read(&self, addr: u16) -> (r: Option<u8>) {
        if addr < 0x4000 {
            let bank: u16 = match self.mode {
                MBC1Mode::Rom => 0,
                MBC1Mode::Ram => ((self.ram_bank as u16) << 5) & mask_for(self.rom_banks),
            };
            Some(byte_at(&self.rom, bank as usize * 0x4000 + addr as usize))
        } else if addr < 0x8000 {
            let bank: u16 = ((self.rom_bank as u16) | ((self.ram_bank as u16) << 5)) & mask_for(
                self.rom_banks,
            );
            Some(byte_at(&self.rom, bank as usize * 0x4000 + (addr - 0x4000) as usize))
        } else if 0xA000 <= addr && addr < 0xC000 {
            if !self.ram_enabled {
                return Some(0xFF);
            }
            Some(byte_at(&self.ram, self.ram_index(addr)))
        } else {
            None
        }
    }

    fn write(&mut self, addr: u16, value: u8) {
        if addr < 0x2000 {
            self.ram_enabled = (value & 0x0F) == 0x0A;
        } else if addr < 0x4000 {
            let bank: u8 = value & 0x1F;
            self.rom_bank = if bank == 0 { 1 } else { bank };
        } else if addr < 0x6000 {
            self.ram_bank = value & 0x03;
        } else if addr < 0x8000 {
            self.mode = if (value & 0x01) == 0 { MBC1Mode::Rom } else { MBC1Mode::Ram };
        } else if 0xA000 <= addr && addr < 0xC000 {
            if !self.ram_enabled {
                return ;
            }
            let at = self.ram_index(addr);
            if at < self.ram.len() {
                self.ram[at] = value;
            }
        }
    }

    fn get_mapper_type(&self) -> (r: MapperType) {
        MapperType::MBC1
    }
}

/// The controllers this library implements.
pub enum BankController {
    /// No controller.
    Plain(NoMBC),
    /// An MBC1.
    Banked(MBC1),
}

impl MemoryBankController for BankController {
    open spec fn state(&self) -> MbcState {
        match self {
            BankController::Plain(mbc) => mbc.state(),
            BankController::Banked(mbc) => mbc.state(),
        }
    }

    fn read(&self, addr: u16) -> (r: Option<u8>) {
        match self {
            BankController::Plain(mbc) => mbc.read(addr),
            BankController::Banked(mbc) => mbc.read(addr),
        }
    }

    fn write(&mut self, addr: u16, value: u8) {
        match self {
            BankController::Plain(mbc) => mbc.write(addr, value),
            BankController::Banked(mbc) => mbc.write(addr, value),
        }
    }

    fn get_mapper_type(&self) -> (r: MapperType) {
        match self {
            BankController::Plain(mbc) => mbc.get_mapper_type(),
            BankController::Banked(mbc) => mbc.get_mapper_type(),
        }
    }
}

/// Builds the controller for a mapper type. Only cartridges without a
/// controller and MBC1 cartridges are supported; any other type is refused
/// with `UnsupportedMapper`.
pub fn create_mbc(
    mapper_type: MapperType,
    rom: Vec<u8>,
    ram_size: u32,
    rom_banks: u16,
    ram_banks: u8,
) -> (r: Result<BankController, CartError>)
    ensures
        mapper_type == MapperType::RomOnly ==> r is Ok && r->Ok_0.state() == MbcState::plain(rom@),
        mapper_type == MapperType::MBC1 ==> r is Ok && r->Ok_0.state() == MbcState::mbc1(
            rom@,
            ram_size,
            rom_banks,
            ram_banks,
        ),
        mapper_type != MapperType::RomOnly && mapper_type != MapperType::MBC1 ==> r is Err
            && r->Err_0 == CartError::UnsupportedMapper(mapper_type),
{
    match mapper_type {
        MapperType::RomOnly => Ok(BankController::Plain(NoMBC::new(rom))),
        MapperType::MBC1 => Ok(
            BankController::Banked(MBC1::new(rom, ram_size, rom_banks, ram_banks)),
        ),
        _ => Err(CartError::UnsupportedMapper(mapper_type)),
    }
}

} // verus!

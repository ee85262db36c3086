//! The cartridge: header, type and mapper.
pub mod cart_header;
pub mod cart_types;

use super::mbc::{create_mbc, BankController, MbcState, MemoryBankController};
use cart_header::{
    get_licensee, get_ram_size, get_rom_size, header_checksum, licensee_name, logo_matches,
    ram_size_of, rom_banks_of, rom_size_of, validate_header_checksum, validate_nintendo_logo,
};
use crate::text::{append_decimal, append_truth, decimal, push_char, truth};
pub use cart_types::{BootFailure, CartError, CartType, MapperType};
use cart_types::{cart_type_of, mapper_of};
use vstd::prelude::*;

verus! {

/// Length an image needs to hold a whole header.
pub const HEADER_END: usize = 0x0150;

/// A loaded cartridge: its bank controller and what its header says.
pub struct Cart {
    pub mbc: BankController,
    pub title: String,
    pub cgb: bool,
    pub cart_type: CartType,
    pub licensee: String,
    pub sgb: bool,
    pub rom_size: u32,
    pub rom_banks: u16,
    pub ram_size: u32,
    pub ram_banks: u8,
    pub destination: bool,
    pub version: u8,
}

/// The image extended with zero bytes to the given size.
pub open spec fn padded_image(data: Seq<u8>, size: nat) -> Seq<u8> {
    Seq::new(size, |i: int| if i < data.len() { data[i] } else { 0u8 })
}

/// The title of an image: the bytes from `from` on, as characters, up to the
/// first zero byte or the end of the title field at 0x0143.
pub open spec fn title_from(image: Seq<u8>, from: int) -> Seq<char>
    decreases 0x0144 - from,
{
    if from >= 0x0144 || image[from] == 0 {
        Seq::empty()
    } else {
        seq![image[from] as char] + title_from(image, from + 1)
    }
}

/// Why an image cannot be loaded, or `None` for one that can.
///
/// The checks are made in this order: the image holds a whole header; the ROM
/// size code is defined and the image is no longer than it says; the RAM size
/// code is defined; the header checksum matches; the logo matches; the
/// cartridge type is defined; its bank controller is supported.
pub open spec fn load_error(data: Seq<u8>) -> Option<CartError> {
    if data.len() < HEADER_END {
        Some(CartError::LoadError)
    } else if data[0x0148] > 8 {
        Some(CartError::InvalidRomSize(data[0x0148]))
    } else if data.len() > rom_size_of(data[0x0148]) {
        Some(CartError::LoadError)
    } else if ram_size_of(data[0x0149]) is None {
        Some(CartError::InvalidRamSize(data[0x0149]))
    } else if header_checksum(data) != data[0x014D] {
        Some(
            CartError::HeaderCheckSumFailure {
                computed_checksum: header_checksum(data),
                expected_checksum: data[0x014D],
            },
        )
    } else if !logo_matches(data) {
        Some(CartError::InvalidLogo)
    } else if mapper_of(data[0x0147]) is None {
        Some(CartError::InvalidCartType(data[0x0147]))
    } else if mapper_of(data[0x0147]) != Some(MapperType::RomOnly) && mapper_of(data[0x0147])
        != Some(MapperType::MBC1) {
        Some(CartError::UnsupportedMapper(mapper_of(data[0x0147])->0))
    } else {
        None
    }
}

/// The bank controller of a freshly loaded image: its ROM is the image
/// extended with zero bytes to the size the header gives.
pub open spec fn power_on_state(data: Seq<u8>) -> MbcState {
    let rom = padded_image(data, rom_size_of(data[0x0148]));
    if mapper_of(data[0x0147]) == Some(MapperType::MBC1) {
        match ram_size_of(data[0x0149]) {
            Some((ram_size, ram_banks)) => MbcState::mbc1(
                rom,
                ram_size,
                rom_banks_of(data[0x0148]) as u16,
                ram_banks,
            ),
            None => MbcState::mbc1(rom, 0, rom_banks_of(data[0x0148]) as u16, 0),
        }
    } else {
        MbcState::plain(rom)
    }
}

impl View for Cart {
    type V = MbcState;

    open spec fn view(&self) -> MbcState {
        self.mbc.state()
    }
}

impl Cart {
    /// Whether the header fields of this cartridge are those of the image.
    pub open spec fn describes(&self, data: Seq<u8>) -> bool {
        &&& self.title@ == title_from(data, 0x0134)
        &&& self.cgb == (data[0x0143] >= 0x80)
        &&& Some(self.cart_type) == cart_type_of(data[0x0147])
        &&& self.licensee@ == licensee_name(data[0x014B], data[0x0144], data[0x0145])
        &&& self.sgb == (data[0x0146] == 0x03)
        &&& self.rom_size == rom_size_of(data[0x0148])
        &&& self.rom_banks == rom_banks_of(data[0x0148])
        &&& Some((self.ram_size, self.ram_banks)) == ram_size_of(data[0x0149])
        &&& self.destination == (data[0x014A] == 0x01)
        &&& self.version == data[0x014C]
    }

    /// The fields read from the header, in the order of the struct.
    pub open spec fn header(&self) -> (
        String,
        bool,
        CartType,
        String,
        bool,
        u32,
        u16,
        u32,
        u8,
        bool,
        u8,
    ) {
        (
            self.title,
            self.cgb,
            self.cart_type,
            self.licensee,
            self.sgb,
            self.rom_size,
            self.rom_banks,
            self.ram_size,
            self.ram_banks,
            self.destination,
            self.version,
        )
    }

    /// What the header says, a line for each field.
    pub open spec fn summary_spec(&self) -> Seq<char> {
        "\t title: "@ + self.title@ + "\n\t cgb: "@ + truth(self.cgb) + "\n\t cart type: "@
            + self.cart_type.description() + "\n\t licensee: "@ + self.licensee@
            + "\n\t sgb: "@ + truth(self.sgb) + "\n\t rom size: "@ + decimal(
            self.rom_size as nat,
        ) + "\n\t rom banks: "@ + decimal(self.rom_banks as nat) + "\n\t ram size: "@ + decimal(
            self.ram_size as nat,
        ) + "\n\t ram banks: "@ + decimal(self.ram_banks as nat) + "\n\t destination: "@
            + truth(self.destination) + "\n\t version: "@ + decimal(self.version as nat)
            + "\n"@
    }

    /// What the header says, a line for each field.
    pub fn summary(&self) -> (r: String)
        ensures
            r@ == self.summary_spec(),
    {
        let mut text = "\t title: ".to_string();
        text.append(self.title.as_str());
        text.append("\n\t cgb: ");
        append_truth(&mut text, self.cgb);
        text.append("\n\t cart type: ");
        let cart_type = self.cart_type.describe();
        text.append(cart_type.as_str());
        text.append("\n\t licensee: ");
        text.append(self.licensee.as_str());
        text.append("\n\t sgb: ");
        append_truth(&mut text, self.sgb);
        text.append("\n\t rom size: ");
        append_decimal(&mut text, self.rom_size as u64);
        text.append("\n\t rom banks: ");
        append_decimal(&mut text, self.rom_banks as u64);
        text.append("\n\t ram size: ");
        append_decimal(&mut text, self.ram_size as u64);
        text.append("\n\t ram banks: ");
        append_decimal(&mut text, self.ram_banks as u64);
        text.append("\n\t destination: ");
        append_truth(&mut text, self.destination);
        text.append("\n\t version: ");
        append_decimal(&mut text, self.version as u64);
        text.append("\n");
        assert(text@ =~= self.summary_spec());
        text
    }

    /// Loads a cartridge from the bytes of its image.
    ///
    /// Fails with the first error `load_error` finds. Otherwise the cartridge
    /// is in its power-on state and carries the fields of the header.
    pub fn new(data: &[u8]) -> (r: Result<Self, CartError>)
        ensures
            match load_error(data@) {
                Some(error) => r is Err && r->Err_0 == error,
                None => r is Ok && r->Ok_0@ == power_on_state(data@) && r->Ok_0.describes(data@),
            },
    {
        if data.len() < HEADER_END {
            return Err(CartError::LoadError);
        }
        let (rom_size, rom_banks) = match get_rom_size(&data[0x0148]) {
            Ok(size) => size,
            Err(error) => return Err(error),
        };
        if data.len() > rom_size as usize {
            return Err(CartError::LoadError);
        }
        let (ram_size, ram_banks) = match get_ram_size(&data[0x0149]) {
            Ok(size) => size,
            Err(error) => return Err(error),
        };
        if let Err(error) = validate_header_checksum(data) {
            return Err(error);
        }
        if let Err(error) = validate_nintendo_logo(data) {
            return Err(error);
        }
        let cart_type = match CartType::new(&data[0x0147]) {
            Ok(cart_type) => cart_type,
            Err(error) => return Err(error),
        };

        let mut rom: Vec<u8> = Vec::new();
        let mut i: usize = 0;
        while i < rom_size as usize
            invariant
                i <= rom_size,
                rom@ == padded_image(data@, i as nat),
            decreases rom_size - i,
        {
            rom.push(if i < data.len() { data[i] } else { 0 });
            i += 1;
        }

        let mut title = String::new();
        let mut at: usize = 0x0134;
        while at < 0x0144 && data[at] != 0
            invariant
                0x0134 <= at <= 0x0144,
                data.len() >= HEADER_END,
                title@ + title_from(data@, at as int) == title_from(data@, 0x0134),
            decreases 0x0144 - at,
        {
            let ghost before = title@;
            push_char(&mut title, data[at] as char);
            assert(title@ + title_from(data@, at + 1) =~= before + title_from(data@, at as int));
            at += 1;
        }
        assert(title@ =~= title_from(data@, 0x0134));

        let cgb = data[0x0143] >= 0x80;
        let sgb = data[0x0146] == 0x03;
        let destination = data[0x014A] == 0x01;
        let version = data[0x014C];
        let licensee = get_licensee(&data[0x014B], &data[0x0144], &data[0x0145]);
        let mbc = match create_mbc(cart_type.mapper, rom, ram_size, rom_banks, ram_banks) {
            Ok(mbc) => mbc,
            Err(error) => return Err(error),
        };
        Ok(
            Self {
                mbc,
                title,
                cgb,
                cart_type,
                licensee,
                sgb,
                rom_size,
                rom_banks,
                ram_size,
                ram_banks,
                destination,
                version,
            },
        )
    }

    /// Reads from the cartridge: `None` outside its two windows.
    pub fn read(&self, addr: &u16) -> (r: Option<u8>)
        ensures
            r == self@.read(*addr),
    {
        self.mbc.read(*addr)
    }

    /// Writes to the cartridge: a control register of the bank controller, or
    /// a byte of external RAM.
    pub fn write(&mut self, addr: &u16, value: u8)
        ensures
            final(self)@ == old(self)@.write(*addr, value),
            final(self).header() == old(self).header(),
    {
        self.mbc.write(*addr, value);
    }
}

} // verus!

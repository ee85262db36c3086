//! Cartridge types and the errors of loading a cartridge.
use crate::text::{append_decimal, decimal};
use vstd::prelude::*;

verus! {

/// The bank controller of a cartridge.
#[derive(Debug, Clone, Copy, PartialEq, Eq, Structural)]
pub enum MapperType {
    RomOnly,
    MBC1,
    MBC2,
    MMM01,
    MBC3,
    MBC5,
    MBC6,
    MBC7,
    PocketCamera,
    BandaiTama5,
    HuC3,
    HuC1,
}

/// Which of the boot-time checks of an image failed.
#[derive(Debug, Clone, Copy, PartialEq, Eq, Structural)]
pub enum BootFailure {
    Passed,
    HeaderCheckSum,
    GlobalCheckSum,
    Logo,
}

/// What the cartridge-type byte of the header says the cartridge holds.
#[derive(Debug, Clone, Copy, PartialEq, Eq, Structural)]
pub struct CartType {
    pub mapper: MapperType,
    pub ram: bool,
    pub battery: bool,
    pub timer: bool,
    pub rumble: bool,
    pub sensor: bool,
}

/// Why a cartridge could not be loaded.
#[derive(Debug, Clone)]
pub enum CartError {
    MissingCart(String),
    InvalidRomSize(u8),
    InvalidRamSize(u8),
    InvalidCartType(u8),
    UnsupportedMapper(MapperType),
    InvalidLogo,
    HeaderCheckSumFailure { computed_checksum: u8, expected_checksum: u8 },
    GlobalCheckSumFailure { computed_checksum: u8, expected_checksum: u8 },
    LoadError,
}

/// The bank controller a cartridge-type byte names, or `None` for a byte the
/// header does not define.
pub open spec fn mapper_of(code: u8) -> Option<MapperType> {
    if code == 0x00 || code == 0x08 || code == 0x09 {
        Some(MapperType::RomOnly)
    } else if 0x01 <= code <= 0x03 {
        Some(MapperType::MBC1)
    } else if code == 0x05 || code == 0x06 {
        Some(MapperType::MBC2)
    } else if 0x0B <= code <= 0x0D {
        Some(MapperType::MMM01)
    } else if 0x0F <= code <= 0x13 {
        Some(MapperType::MBC3)
    } else if 0x19 <= code <= 0x1E {
        Some(MapperType::MBC5)
    } else if code == 0x20 {
        Some(MapperType::MBC6)
    } else if code == 0x22 {
        Some(MapperType::MBC7)
    } else if code == 0xFC {
        Some(MapperType::PocketCamera)
    } else if code == 0xFD {
        Some(MapperType::BandaiTama5)
    } else if code == 0xFE {
        Some(MapperType::HuC3)
    } else if code == 0xFF {
        Some(MapperType::HuC1)
    } else {
        None
    }
}

/// Whether a cartridge of this type carries external RAM.
pub open spec fn type_has_ram(code: u8) -> bool {
    code == 0x02 || code == 0x03 || code == 0x08 || code == 0x09 || code == 0x0C || code == 0x0D
        || code == 0x10 || code == 0x12 || code == 0x13 || code == 0x1A || code == 0x1B || code
        == 0x1D || code == 0x1E || code == 0x22 || code == 0xFF
}

/// Whether a cartridge of this type carries a battery.
pub open spec fn type_has_battery(code: u8) -> bool {
    code == 0x03 || code == 0x06 || code == 0x09 || code == 0x0D || code == 0x0F || code == 0x10
        || code == 0x13 || code == 0x1B || code == 0x1E || code == 0x22 || code == 0xFF
}

/// Whether a cartridge of this type carries a real-time clock.
pub open spec fn type_has_timer(code: u8) -> bool {
    code == 0x0F || code == 0x10
}

/// Whether a cartridge of this type carries a rumble motor.
pub open spec fn type_has_rumble(code: u8) -> bool {
    code == 0x1C || code == 0x1D || code == 0x1E || code == 0x22
}

/// Whether a cartridge of this type carries a tilt sensor.
pub open spec fn type_has_sensor(code: u8) -> bool {
    code == 0x22
}

/// What a cartridge-type byte says, or `None` for a byte the header does not
/// define.
pub open spec fn cart_type_of(code: u8) -> Option<CartType> {
    match mapper_of(code) {
        Some(mapper) => Some(
            CartType {
                mapper,
                ram: type_has_ram(code),
                battery: type_has_battery(code),
                timer: type_has_timer(code),
                rumble: type_has_rumble(code),
                sensor: type_has_sensor(code),
            },
        ),
        None => None,
    }
}

impl CartType {
    /// A cartridge type with the given controller and nothing else on board.
    fn plain(mapper: MapperType) -> (r: Self)
        ensures
            r == (CartType {
                mapper,
                ram: false,
                battery: false,
                timer: false,
                rumble: false,
                sensor: false,
            }),
    {
        CartType { mapper, ram: false, battery: false, timer: false, rumble: false, sensor: false }
    }

    /// Reads the cartridge-type byte of the header.
    pub fn new(code: &u8) -> (r: Result<Self, CartError>)
        ensures
            match cart_type_of(*code) {
                Some(cart_type) => r == Ok::<CartType, CartError>(cart_type),
                None => r == Err::<CartType, CartError>(CartError::InvalidCartType(*code)),
            },
    {
        let mut cart_type = Self::plain(MapperType::RomOnly);
        match *code {
            0x00 => (),
            0x01 => cart_type.mapper = MapperType::MBC1,
            0x02 => {
                cart_type.mapper = MapperType::MBC1;
                cart_type.ram = true;
            },
            0x03 => {
                cart_type.mapper = MapperType::MBC1;
                cart_type.ram = true;
                cart_type.battery = true;
            },
            0x05 => cart_type.mapper = MapperType::MBC2,
            0x06 => {
                cart_type.mapper = MapperType::MBC2;
                cart_type.battery = true;
            },
            0x08 => cart_type.ram = true,
            0x09 => {
                cart_type.ram = true;
                cart_type.battery = true;
            },
            0x0B => cart_type.mapper = MapperType::MMM01,
            0x0C => {
                cart_type.mapper = MapperType::MMM01;
                cart_type.ram = true;
            },
            0x0D => {
                cart_type.mapper = MapperType::MMM01;
                cart_type.ram = true;
                cart_type.battery = true;
            },
            0x0F => {
                cart_type.mapper = MapperType::MBC3;
                cart_type.timer = true;
                cart_type.battery = true;
            },
            0x10 => {
                cart_type.mapper = MapperType::MBC3;
                cart_type.timer = true;
                cart_type.ram = true;
                cart_type.battery = true;
            },
            0x11 => cart_type.mapper = MapperType::MBC3,
            0x12 => {
                cart_type.mapper = MapperType::MBC3;
                cart_type.ram = true;
            },
            0x13 => {
                cart_type.mapper = MapperType::MBC3;
                cart_type.ram = true;
                cart_type.battery = true;
            },
            0x19 => cart_type.mapper = MapperType::MBC5,
            0x1A => {
                cart_type.mapper = MapperType::MBC5;
                cart_type.ram = true;
            },
            0x1B => {
                cart_type.mapper = MapperType::MBC5;
                cart_type.ram = true;
                cart_type.battery = true;
            },
            0x1C => {
                cart_type.mapper = MapperType::MBC5;
                cart_type.rumble = true;
            },
            0x1D => {
                cart_type.mapper = MapperType::MBC5;
                cart_type.rumble = true;
                cart_type.ram = true;
            },
            0x1E => {
                cart_type.mapper = MapperType::MBC5;
                cart_type.rumble = true;
                cart_type.ram = true;
                cart_type.battery = true;
            },
            0x20 => cart_type.mapper = MapperType::MBC6,
            0x22 => {
                cart_type.mapper = MapperType::MBC7;
                cart_type.sensor = true;
                cart_type.rumble = true;
                cart_type.ram = true;
                cart_type.battery = true;
            },
            0xFC => cart_type.mapper = MapperType::PocketCamera,
            0xFD => cart_type.mapper = MapperType::BandaiTama5,
            0xFE => cart_type.mapper = MapperType::HuC3,
            0xFF => {
                cart_type.mapper = MapperType::HuC1;
                cart_type.ram = true;
                cart_type.battery = true;
            },
            _ => return Err(CartError::InvalidCartType(*code)),
        }
        Ok(cart_type)
    }
}

impl MapperType {
    /// The name of the bank controller; `None` for a cartridge without one.
    pub open spec fn name_spec(self) -> Seq<char> {
        match self {
            MapperType::RomOnly => "None"@,
            MapperType::MBC1 => "MBC1"@,
            MapperType::MBC2 => "MBC2"@,
            MapperType::MMM01 => "MMM01"@,
            MapperType::MBC3 => "MBC3"@,
            MapperType::MBC5 => "MBC5"@,
            MapperType::MBC6 => "MBC6"@,
            MapperType::MBC7 => "MBC7"@,
            MapperType::PocketCamera => "PocketCamera"@,
            MapperType::BandaiTama5 => "BandaiTama5"@,
            MapperType::HuC3 => "HuC3"@,
            MapperType::HuC1 => "HuC1"@,
        }
    }

    /// The name of the bank controller; `None` for a cartridge without one.
    pub fn name(&self) -> (r: &'static str)
        ensures
            r@ == self.name_spec(),
    {
        match self {
            MapperType::RomOnly => "None",
            MapperType::MBC1 => "MBC1",
            MapperType::MBC2 => "MBC2",
            MapperType::MMM01 => "MMM01",
            MapperType::MBC3 => "MBC3",
            MapperType::MBC5 => "MBC5",
            MapperType::MBC6 => "MBC6",
            MapperType::MBC7 => "MBC7",
            MapperType::PocketCamera => "PocketCamera",
            MapperType::BandaiTama5 => "BandaiTama5",
            MapperType::HuC3 => "HuC3",
            MapperType::HuC1 => "HuC1",
        }
    }
}

/// The text `+WORD` if a part is on board, nothing if not.
pub open spec fn part(present: bool, word: Seq<char>) -> Seq<char> {
    if present {
        word
    } else {
        Seq::empty()
    }
}

impl CartType {
    /// The cartridge type in words: the name of the bank controller, then
    /// `+RAM`, `+BATTERY`, `+TIMER`, `+RUMBLE` and `+SENSOR` for what is on
    /// board.
    pub open spec fn description(self) -> Seq<char> {
        self.mapper.name_spec() + part(self.ram, "+RAM"@) + part(self.battery, "+BATTERY"@) + part(
            self.timer,
            "+TIMER"@,
        ) + part(self.rumble, "+RUMBLE"@) + part(self.sensor, "+SENSOR"@)
    }

    /// The cartridge type in words.
    pub fn describe(&self) -> (r: String)
        ensures
            r@ == self.description(),
    {
        let mut text = self.mapper.name().to_string();
        if self.ram {
            text.append("+RAM");
        }
        if self.battery {
            text.append("+BATTERY");
        }
        if self.timer {
            text.append("+TIMER");
        }
        if self.rumble {
            text.append("+RUMBLE");
        }
        if self.sensor {
            text.append("+SENSOR");
        }
        assert(text@ =~= self.description());
        text
    }
}

impl CartError {
    /// The error in words, on one line.
    pub open spec fn message_spec(self) -> Seq<char> {
        match self {
            CartError::MissingCart(path) => "Missing cart: "@ + path@,
            CartError::InvalidRomSize(size) => "Invalid ROM size: "@ + decimal(size as nat),
            CartError::InvalidRamSize(size) => "Invalid RAM size: "@ + decimal(size as nat),
            CartError::InvalidCartType(cart_type) => "Invalid cart type: "@ + decimal(
                cart_type as nat,
            ),
            CartError::UnsupportedMapper(mapper) => "Unsupported mapper: "@ + mapper.name_spec(),
            CartError::InvalidLogo => "Invalid Nintendo logo"@,
            CartError::HeaderCheckSumFailure { computed_checksum, expected_checksum } => {
                "Header checksum failure: computed "@ + decimal(computed_checksum as nat)
                    + ", expected "@ + decimal(expected_checksum as nat)
            },
            CartError::GlobalCheckSumFailure { computed_checksum, expected_checksum } => {
                "Global checksum failure: computed "@ + decimal(computed_checksum as nat)
                    + ", expected "@ + decimal(expected_checksum as nat)
            },
            CartError::LoadError => "Load error"@,
        }
    }

    /// The error in words, on one line.
    pub fn message(&self) -> (r: String)
        ensures
            r@ == self.message_spec(),
    {
        match self {
            CartError::MissingCart(path) => {
                let mut text = "Missing cart: ".to_string();
                text.append(path.as_str());
                text
            },
            CartError::InvalidRomSize(size) => {
                let mut text = "Invalid ROM size: ".to_string();
                append_decimal(&mut text, *size as u64);
                text
            },
            CartError::InvalidRamSize(size) => {
                let mut text = "Invalid RAM size: ".to_string();
                append_decimal(&mut text, *size as u64);
                text
            },
            CartError::InvalidCartType(cart_type) => {
                let mut text = "Invalid cart type: ".to_string();
                append_decimal(&mut text, *cart_type as u64);
                text
            },
            CartError::UnsupportedMapper(mapper) => {
                let mut text = "Unsupported mapper: ".to_string();
                text.append(mapper.name());
                text
            },
            CartError::InvalidLogo => "Invalid Nintendo logo".to_string(),
            CartError::HeaderCheckSumFailure { computed_checksum, expected_checksum } => {
                let mut text = "Header checksum failure: computed ".to_string();
                append_decimal(&mut text, *computed_checksum as u64);
                text.append(", expected ");
                append_decimal(&mut text, *expected_checksum as u64);
                text
            },
            CartError::GlobalCheckSumFailure { computed_checksum, expected_checksum } => {
                let mut text = "Global checksum failure: computed ".to_string();
                append_decimal(&mut text, *computed_checksum as u64);
                text.append(", expected ");
                append_decimal(&mut text, *expected_checksum as u64);
                text
            },
            CartError::LoadError => "Load error".to_string(),
        }
    }
}

} // verus!

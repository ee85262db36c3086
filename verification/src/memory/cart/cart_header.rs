//! The cartridge header: size codes, licensee names, the logo and the header
//! checksum.
use super::cart_types::CartError;
use crate::text::{push_char, upper_digit, upper_digit_char};
use vstd::prelude::*;

verus! {

/// The bitmap that every cartridge carries at 0x0104..=0x0133.
pub const NINTENDO_LOGO: [u8; 48] = [
    0xCE, 0xED, 0x66, 0x66, 0xCC, 0x0D, 0x00, 0x0B, 0x03, 0x73, 0x00, 0x83, 0x00, 0x0C, 0x00, 0x0D,
    0x00, 0x08, 0x11, 0x1F, 0x88, 0x89, 0x00, 0x0E, 0xDC, 0xCC, 0x6E, 0xE6, 0xDD, 0xDD, 0xD9, 0x99,
    0xBB, 0xBB, 0x67, 0x63, 0x6E, 0x0E, 0xEC, 0xCC, 0xDD, 0xDC, 0x99, 0x9F, 0xBB, 0xB9, 0x33, 0x3E,
];

/// Offset of the logo in the image.
pub const LOGO_START: usize = 0x0104;

/// Offset of the first byte the header checksum covers.
pub const CHECKSUM_START: usize = 0x0134;

/// Offset of the header checksum; the checksum covers the bytes before it.
pub const CHECKSUM_AT: usize = 0x014D;

/// Two to the power `code`, for the size codes of the header.
pub open spec fn pow2(code: nat) -> nat
    decreases code,
{
    if code == 0 {
        1
    } else {
        2 * pow2((code - 1) as nat)
    }
}

/// ROM size in bytes for a size code: 32 KiB doubled `code` times.
pub open spec fn rom_size_of(code: u8) -> nat {
    0x8000 * pow2(code as nat)
}

/// Number of 16 KiB ROM banks for a size code.
pub open spec fn rom_banks_of(code: u8) -> nat {
    2 * pow2(code as nat)
}

/// External RAM size in bytes and number of 8 KiB banks for a size code, or
/// `None` for a code the header does not define.
pub open spec fn ram_size_of(code: u8) -> Option<(u32, u8)> {
    if code == 0x00 {
        Some((0u32, 0u8))
    } else if code == 0x02 {
        Some((0x2000u32, 1u8))
    } else if code == 0x03 {
        Some((0x8000u32, 4u8))
    } else if code == 0x04 {
        Some((0x20000u32, 16u8))
    } else if code == 0x05 {
        Some((0x10000u32, 8u8))
    } else {
        None
    }
}

/// The powers of two the size codes reach.
pub proof fn lemma_pow2_small()
    ensures
        pow2(0) == 1,
        pow2(1) == 2,
        pow2(2) == 4,
        pow2(3) == 8,
        pow2(4) == 16,
        pow2(5) == 32,
        pow2(6) == 64,
        pow2(7) == 128,
        pow2(8) == 256,
{
    reveal_with_fuel(pow2, 10);
}

/// Reads the ROM size code: the size in bytes and the number of 16 KiB banks.
/// Codes above 8 are rejected.
pub fn get_rom_size(code: &u8) -> (r: Result<(u32, u16), CartError>)
    ensures
        *code <= 8 ==> r == Ok::<(u32, u16), CartError>(
            (rom_size_of(*code) as u32, rom_banks_of(*code) as u16),
        ),
        *code <= 8 ==> rom_size_of(*code) == 0x4000 * rom_banks_of(*code) && 2 <= rom_banks_of(
            *code,
        ) <= 512,
        *code > 8 ==> r == Err::<(u32, u16), CartError>(CartError::InvalidRomSize(*code)),
{
    proof {
        lemma_pow2_small();
    }
    match *code {
        0 => Ok((0x8000, 2)),
        1 => Ok((0x1_0000, 4)),
        2 => Ok((0x2_0000, 8)),
        3 => Ok((0x4_0000, 16)),
        4 => Ok((0x8_0000, 32)),
        5 => Ok((0x10_0000, 64)),
        6 => Ok((0x20_0000, 128)),
        7 => Ok((0x40_0000, 256)),
        8 => Ok((0x80_0000, 512)),
        _ => Err(CartError::InvalidRomSize(*code)),
    }
}

/// Reads the RAM size code: the size in bytes and the number of 8 KiB banks.
/// Codes other than 0, 2, 3, 4 and 5 are rejected.
pub fn get_ram_size(code: &u8) -> (r: Result<(u32, u8), CartError>)
    ensures
        match ram_size_of(*code) {
            Some(size) => r == Ok::<(u32, u8), CartError>(size),
            None => r == Err::<(u32, u8), CartError>(CartError::InvalidRamSize(*code)),
        },
{
    match *code {
        0x00 => Ok((0, 0)),
        0x02 => Ok((0x2000, 1)),
        0x03 => Ok((0x8000, 4)),
        0x04 => Ok((0x20000, 16)),
        0x05 => Ok((0x10000, 8)),
        _ => Err(CartError::InvalidRamSize(*code)),
    }
}

/// The text `Unknown (..)` around the given characters.
pub open spec fn unknown_name(code: Seq<char>) -> Seq<char> {
    "Unknown ("@ + code + ")"@
}

/// Publisher named by an old licensee code, where the table has one.
pub open spec fn old_licensee_name(code: u8) -> Option<Seq<char>> {
    if code == 0x00 {
        Some("None"@)
    } else if code == 0x01 {
        Some("Nintendo"@)
    } else if code == 0x08 {
        Some("Capcom"@)
    } else if code == 0x09 {
        Some("Hot-B"@)
    } else if code == 0x0A {
        Some("Jaleco"@)
    } else if code == 0x0B {
        Some("Coconuts Japan"@)
    } else if code == 0x0C {
        Some("Elite Systems"@)
    } else if code == 0x13 {
        Some("Electronic Arts"@)
    } else if code == 0x18 {
        Some("Hudson Soft"@)
    } else if code == 0x19 {
        Some("ITC Entertainment"@)
    } else if code == 0x1A {
        Some("Yanoman"@)
    } else if code == 0x1D {
        Some("Japan Clary"@)
    } else if code == 0x1F {
        Some("Virgin Interactive"@)
    } else if code == 0x24 {
        Some("PCM Complete"@)
    } else if code == 0x25 {
        Some("San-X"@)
    } else if code == 0x28 {
        Some("Kotobuki Systems"@)
    } else if code == 0x29 {
        Some("Seta"@)
    } else if code == 0x30 {
        Some("Infogrames"@)
    } else if code == 0x31 {
        Some("Nintendo"@)
    } else if code == 0x32 {
        Some("Bandai"@)
    } else if code == 0x34 {
        Some("Konami"@)
    } else if code == 0x35 {
        Some("HectorSoft"@)
    } else if code == 0x38 {
        Some("Capcom"@)
    } else if code == 0x39 {
        Some("Banpresto"@)
    } else if code == 0x3C {
        Some("Entertainment i"@)
    } else if code == 0x3E {
        Some("Gremlin"@)
    } else if code == 0x41 {
        Some("Ubisoft"@)
    } else if code == 0x42 {
        Some("Atlus"@)
    } else if code == 0x44 {
        Some("Malibu"@)
    } else if code == 0x46 {
        Some("Angel"@)
    } else if code == 0x47 {
        Some("Spectrum Holobyte"@)
    } else if code == 0x49 {
        Some("Irem"@)
    } else if code == 0x4A {
        Some("Virgin Interactive"@)
    } else if code == 0x4D {
        Some("Malibu"@)
    } else if code == 0x4F {
        Some("U.S. Gold"@)
    } else if code == 0x50 {
        Some("Absolute"@)
    } else if code == 0x51 {
        Some("Acclaim"@)
    } else if code == 0x52 {
        Some("Activision"@)
    } else if code == 0x53 {
        Some("American Sammy"@)
    } else if code == 0x54 {
        Some("GameTek"@)
    } else if code == 0x55 {
        Some("Park Place"@)
    } else if code == 0x56 {
        Some("LJN"@)
    } else if code == 0x57 {
        Some("Matchbox"@)
    } else if code == 0x59 {
        Some("Milton Bradley"@)
    } else if code == 0x5A {
        Some("Mindscape"@)
    } else if code == 0x5B {
        Some("Romstar"@)
    } else if code == 0x5C {
        Some("Naxat Soft"@)
    } else if code == 0x5D {
        Some("Tradewest"@)
    } else if code == 0x60 {
        Some("Titus"@)
    } else if code == 0x61 {
        Some("Virgin Interactive"@)
    } else if code == 0x67 {
        Some("Ocean"@)
    } else if code == 0x69 {
        Some("Electronic Arts"@)
    } else if code == 0x6E {
        Some("Elite Systems"@)
    } else if code == 0x6F {
        Some("Electro Brain"@)
    } else if code == 0x70 {
        Some("Infogrames"@)
    } else if code == 0x71 {
        Some("Interplay"@)
    } else if code == 0x72 {
        Some("Broderbund"@)
    } else if code == 0x73 {
        Some("Sculptered Soft"@)
    } else if code == 0x75 {
        Some("The Sales Curve"@)
    } else if code == 0x78 {
        Some("t.hq"@)
    } else if code == 0x79 {
        Some("Accolade"@)
    } else if code == 0x7A {
        Some("Triffix Entertainment"@)
    } else if code == 0x7C {
        Some("Microprose"@)
    } else if code == 0x7F {
        Some("Kemco"@)
    } else if code == 0x80 {
        Some("Misawa Entertainment"@)
    } else if code == 0x83 {
        Some("Lozc"@)
    } else if code == 0x86 {
        Some("Tokuma Shoten I*"@)
    } else if code == 0x8B {
        Some("Bullet-Proof Software"@)
    } else if code == 0x8C {
        Some("Vic Tokai"@)
    } else if code == 0x8E {
        Some("Ape"@)
    } else if code == 0x8F {
        Some("I'Max"@)
    } else if code == 0x91 {
        Some("Chun Soft"@)
    } else if code == 0x92 {
        Some("Video System"@)
    } else if code == 0x93 {
        Some("Tsubaraya Productions Co."@)
    } else if code == 0x95 {
        Some("Varie Corporation"@)
    } else if code == 0x96 {
        Some("Yonezawa/S'Pal"@)
    } else if code == 0x97 {
        Some("Kaneko"@)
    } else if code == 0x99 {
        Some("Arc"@)
    } else if code == 0x9A {
        Some("Nihon Bussan"@)
    } else if code == 0x9B {
        Some("Tecmo"@)
    } else if code == 0x9C {
        Some("Imagineer"@)
    } else if code == 0x9D {
        Some("Banpresto"@)
    } else if code == 0x9F {
        Some("Nova"@)
    } else if code == 0xA1 {
        Some("Hori Electric"@)
    } else if code == 0xA2 {
        Some("Bandai"@)
    } else if code == 0xA4 {
        Some("Konami"@)
    } else if code == 0xA6 {
        Some("Kawada"@)
    } else if code == 0xA7 {
        Some("Takara"@)
    } else if code == 0xA9 {
        Some("Technos Japan"@)
    } else if code == 0xAA {
        Some("Broderbund"@)
    } else if code == 0xAC {
        Some("Toei Animation"@)
    } else if code == 0xAD {
        Some("Toho"@)
    } else if code == 0xAF {
        Some("Namco"@)
    } else if code == 0xB0 {
        Some("acclaim"@)
    } else if code == 0xB1 {
        Some("ASCII or Nexsoft"@)
    } else if code == 0xB2 {
        Some("Bandai"@)
    } else if code == 0xB4 {
        Some("Square Enix"@)
    } else if code == 0xB6 {
        Some("HAL Laboratory"@)
    } else if code == 0xB7 {
        Some("SNK"@)
    } else if code == 0xB9 {
        Some("Pony Canyon"@)
    } else if code == 0xBA {
        Some("Culture Brain"@)
    } else if code == 0xBB {
        Some("Sunsoft"@)
    } else if code == 0xBD {
        Some("Sony Imagesoft"@)
    } else if code == 0xBF {
        Some("Sammy"@)
    } else if code == 0xC0 {
        Some("Taito"@)
    } else if code == 0xC2 {
        Some("Kemco"@)
    } else if code == 0xC3 {
        Some("Squaresoft"@)
    } else if code == 0xC4 {
        Some("Tokuma Shoten Intermedia"@)
    } else if code == 0xC5 {
        Some("Data East"@)
    } else if code == 0xC6 {
        Some("Tonkinhouse"@)
    } else if code == 0xC8 {
        Some("Koei"@)
    } else if code == 0xC9 {
        Some("UFL"@)
    } else if code == 0xCA {
        Some("Ultra"@)
    } else if code == 0xCB {
        Some("Vap"@)
    } else if code == 0xCC {
        Some("Use Corporation"@)
    } else if code == 0xCD {
        Some("Meldac"@)
    } else if code == 0xCE {
        Some(".Pony Canyon or"@)
    } else if code == 0xCF {
        Some("Angel"@)
    } else if code == 0xD0 {
        Some("Taito"@)
    } else if code == 0xD1 {
        Some("Sofel"@)
    } else if code == 0xD2 {
        Some("Quest"@)
    } else if code == 0xD3 {
        Some("Sigma Enterprises"@)
    } else if code == 0xD4 {
        Some("ASK Kodansha Co."@)
    } else if code == 0xD6 {
        Some("Naxat Soft"@)
    } else if code == 0xD7 {
        Some("Copya System"@)
    } else if code == 0xD9 {
        Some("Banpresto"@)
    } else if code == 0xDA {
        Some("Tomy"@)
    } else if code == 0xDB {
        Some("LJN"@)
    } else if code == 0xDD {
        Some("NCS"@)
    } else if code == 0xDE {
        Some("Human"@)
    } else if code == 0xDF {
        Some("Altron"@)
    } else if code == 0xE0 {
        Some("Jaleco"@)
    } else if code == 0xE1 {
        Some("Towa Chiki"@)
    } else if code == 0xE2 {
        Some("Yutaka"@)
    } else if code == 0xE3 {
        Some("Varie"@)
    } else if code == 0xE5 {
        Some("Epcoh"@)
    } else if code == 0xE7 {
        Some("Athena"@)
    } else if code == 0xE8 {
        Some("Asmik ACE Entertainment"@)
    } else if code == 0xE9 {
        Some("Natsume"@)
    } else if code == 0xEA {
        Some("King Records"@)
    } else if code == 0xEB {
        Some("Atlus"@)
    } else if code == 0xEC {
        Some("Epic/Sony Records"@)
    } else if code == 0xEE {
        Some("IGS"@)
    } else if code == 0xF0 {
        Some("A Wave"@)
    } else if code == 0xF3 {
        Some("Extreme Entertainment"@)
    } else if code == 0xFF {
        Some("LJN"@)
    } else {
        None
    }
}

/// Publisher named by a new licensee code, a pair of ASCII characters, where
/// the table has one.
pub open spec fn new_licensee_name(hi: u8, lo: u8) -> Option<Seq<char>> {
    if hi == 0x30 && lo == 0x30 {
        Some("None"@)
    } else if hi == 0x30 && lo == 0x31 {
        Some("Nintendo R&D1"@)
    } else if hi == 0x30 && lo == 0x38 {
        Some("Capcom"@)
    } else if hi == 0x31 && lo == 0x33 {
        Some("Electronic Arts"@)
    } else if hi == 0x31 && lo == 0x38 {
        Some("Hudson Soft"@)
    } else if hi == 0x31 && lo == 0x39 {
        Some("B-AI"@)
    } else if hi == 0x32 && lo == 0x30 {
        Some("KSS"@)
    } else if hi == 0x32 && lo == 0x32 {
        Some("POW"@)
    } else if hi == 0x32 && lo == 0x34 {
        Some("PCM Complete"@)
    } else if hi == 0x32 && lo == 0x35 {
        Some("San-X"@)
    } else if hi == 0x32 && lo == 0x38 {
        Some("Kemco Japan"@)
    } else if hi == 0x32 && lo == 0x39 {
        Some("SETA"@)
    } else if hi == 0x33 && lo == 0x30 {
        Some("Viacom"@)
    } else if hi == 0x33 && lo == 0x31 {
        Some("Nintendo"@)
    } else if hi == 0x33 && lo == 0x32 {
        Some("Bandai"@)
    } else if hi == 0x33 && lo == 0x33 {
        Some("Ocean/Acclaim"@)
    } else if hi == 0x33 && lo == 0x34 {
        Some("Konami"@)
    } else if hi == 0x33 && lo == 0x35 {
        Some("HectorSoft"@)
    } else if hi == 0x33 && lo == 0x37 {
        Some("Taito"@)
    } else if hi == 0x33 && lo == 0x38 {
        Some("Hudson"@)
    } else if hi == 0x33 && lo == 0x39 {
        Some("Banpresto"@)
    } else if hi == 0x34 && lo == 0x31 {
        Some("Ubi Soft"@)
    } else if hi == 0x34 && lo == 0x32 {
        Some("Atlus"@)
    } else if hi == 0x34 && lo == 0x34 {
        Some("Malibu"@)
    } else if hi == 0x34 && lo == 0x36 {
        Some("Angel"@)
    } else if hi == 0x34 && lo == 0x37 {
        Some("Bullet-Proof"@)
    } else if hi == 0x34 && lo == 0x39 {
        Some("Irem"@)
    } else if hi == 0x35 && lo == 0x30 {
        Some("Absolute"@)
    } else if hi == 0x35 && lo == 0x31 {
        Some("Acclaim"@)
    } else if hi == 0x35 && lo == 0x32 {
        Some("Activision"@)
    } else if hi == 0x35 && lo == 0x33 {
        Some("American Sammy"@)
    } else if hi == 0x35 && lo == 0x34 {
        Some("Konami"@)
    } else if hi == 0x35 && lo == 0x35 {
        Some("Hi tech entertainment"@)
    } else if hi == 0x35 && lo == 0x36 {
        Some("LJN"@)
    } else if hi == 0x35 && lo == 0x37 {
        Some("Matchbox"@)
    } else if hi == 0x35 && lo == 0x38 {
        Some("Mattel"@)
    } else if hi == 0x35 && lo == 0x39 {
        Some("Milton Bradley"@)
    } else if hi == 0x36 && lo == 0x30 {
        Some("Titus"@)
    } else if hi == 0x36 && lo == 0x31 {
        Some("Virgin"@)
    } else if hi == 0x36 && lo == 0x34 {
        Some("LucasArts"@)
    } else if hi == 0x36 && lo == 0x37 {
        Some("Ocean"@)
    } else if hi == 0x36 && lo == 0x39 {
        Some("Electronic Arts"@)
    } else if hi == 0x37 && lo == 0x30 {
        Some("Infogrames"@)
    } else if hi == 0x37 && lo == 0x31 {
        Some("Interplay"@)
    } else if hi == 0x37 && lo == 0x32 {
        Some("Broderbund"@)
    } else if hi == 0x37 && lo == 0x33 {
        Some("Sculptured"@)
    } else if hi == 0x37 && lo == 0x35 {
        Some("SCI"@)
    } else if hi == 0x37 && lo == 0x38 {
        Some("THQ"@)
    } else if hi == 0x37 && lo == 0x39 {
        Some("Accolade"@)
    } else if hi == 0x38 && lo == 0x30 {
        Some("Misawa"@)
    } else if hi == 0x38 && lo == 0x33 {
        Some("LOZC"@)
    } else if hi == 0x38 && lo == 0x36 {
        Some("Tokuma Shoten Intermedia"@)
    } else if hi == 0x38 && lo == 0x37 {
        Some("Tsukuda Original"@)
    } else if hi == 0x39 && lo == 0x31 {
        Some("Chunsoft"@)
    } else if hi == 0x39 && lo == 0x32 {
        Some("Video system"@)
    } else if hi == 0x39 && lo == 0x33 {
        Some("Ocean/Acclaim"@)
    } else if hi == 0x39 && lo == 0x35 {
        Some("Varie"@)
    } else if hi == 0x39 && lo == 0x36 {
        Some("Yonezawa/S'PAL"@)
    } else if hi == 0x39 && lo == 0x37 {
        Some("Kaneko"@)
    } else if hi == 0x39 && lo == 0x39 {
        Some("Pack in soft"@)
    } else if hi == 0x39 && lo == 0x48 {
        Some("Bottom Up"@)
    } else if hi == 0x41 && lo == 0x34 {
        Some("Konami (Yu-Gi-Oh!)"@)
    } else {
        None
    }
}

/// The publisher of a cartridge.
///
/// The old licensee code 0x33 defers to the new licensee code. A code that
/// neither table knows gives `Unknown (..)`: around the two characters of a new
/// code, around the two hexadecimal digits of an old one.
pub open spec fn licensee_name(old_licensee: u8, licensee_hi: u8, licensee_lo: u8) -> Seq<char> {
    if old_licensee == 0x33 {
        match new_licensee_name(licensee_hi, licensee_lo) {
            Some(name) => name,
            None => unknown_name(seq![licensee_hi as char, licensee_lo as char]),
        }
    } else {
        match old_licensee_name(old_licensee) {
            Some(name) => name,
            None => unknown_name(seq![upper_digit(old_licensee as int / 16), upper_digit(old_licensee as int % 16)]),
        }
    }
}

/// The text `Unknown (..)` around two characters.
fn unknown_licensee(first: char, second: char) -> (r: String)
    ensures
        r@ == unknown_name(seq![first, second]),
{
    let mut text = "Unknown (".to_string();
    push_char(&mut text, first);
    push_char(&mut text, second);
    let text = text.concat(")");
    assert(text@ =~= unknown_name(seq![first, second]));
    text
}


/// Looks an old licensee code up in its table.
fn old_licensee(code: u8) -> (r: Option<String>)
    ensures
        match old_licensee_name(code) {
            Some(name) => r is Some && r->0@ == name,
            None => r is None,
        },
{
    match code {
        0x00 => Some("None".to_string()),
        0x01 => Some("Nintendo".to_string()),
        0x08 => Some("Capcom".to_string()),
        0x09 => Some("Hot-B".to_string()),
        0x0A => Some("Jaleco".to_string()),
        0x0B => Some("Coconuts Japan".to_string()),
        0x0C => Some("Elite Systems".to_string()),
        0x13 => Some("Electronic Arts".to_string()),
        0x18 => Some("Hudson Soft".to_string()),
        0x19 => Some("ITC Entertainment".to_string()),
        0x1A => Some("Yanoman".to_string()),
        0x1D => Some("Japan Clary".to_string()),
        0x1F => Some("Virgin Interactive".to_string()),
        0x24 => Some("PCM Complete".to_string()),
        0x25 => Some("San-X".to_string()),
        0x28 => Some("Kotobuki Systems".to_string()),
        0x29 => Some("Seta".to_string()),
        0x30 => Some("Infogrames".to_string()),
        0x31 => Some("Nintendo".to_string()),
        0x32 => Some("Bandai".to_string()),
        0x34 => Some("Konami".to_string()),
        0x35 => Some("HectorSoft".to_string()),
        0x38 => Some("Capcom".to_string()),
        0x39 => Some("Banpresto".to_string()),
        0x3C => Some("Entertainment i".to_string()),
        0x3E => Some("Gremlin".to_string()),
        0x41 => Some("Ubisoft".to_string()),
        0x42 => Some("Atlus".to_string()),
        0x44 => Some("Malibu".to_string()),
        0x46 => Some("Angel".to_string()),
        0x47 => Some("Spectrum Holobyte".to_string()),
        0x49 => Some("Irem".to_string()),
        0x4A => Some("Virgin Interactive".to_string()),
        0x4D => Some("Malibu".to_string()),
        0x4F => Some("U.S. Gold".to_string()),
        0x50 => Some("Absolute".to_string()),
        0x51 => Some("Acclaim".to_string()),
        0x52 => Some("Activision".to_string()),
        0x53 => Some("American Sammy".to_string()),
        0x54 => Some("GameTek".to_string()),
        0x55 => Some("Park Place".to_string()),
        0x56 => Some("LJN".to_string()),
        0x57 => Some("Matchbox".to_string()),
        0x59 => Some("Milton Bradley".to_string()),
        0x5A => Some("Mindscape".to_string()),
        0x5B => Some("Romstar".to_string()),
        0x5C => Some("Naxat Soft".to_string()),
        0x5D => Some("Tradewest".to_string()),
        0x60 => Some("Titus".to_string()),
        0x61 => Some("Virgin Interactive".to_string()),
        0x67 => Some("Ocean".to_string()),
        0x69 => Some("Electronic Arts".to_string()),
        0x6E => Some("Elite Systems".to_string()),
        0x6F => Some("Electro Brain".to_string()),
        0x70 => Some("Infogrames".to_string()),
        0x71 => Some("Interplay".to_string()),
        0x72 => Some("Broderbund".to_string()),
        0x73 => Some("Sculptered Soft".to_string()),
        0x75 => Some("The Sales Curve".to_string()),
        0x78 => Some("t.hq".to_string()),
        0x79 => Some("Accolade".to_string()),
        0x7A => Some("Triffix Entertainment".to_string()),
        0x7C => Some("Microprose".to_string()),
        0x7F => Some("Kemco".to_string()),
        0x80 => Some("Misawa Entertainment".to_string()),
        0x83 => Some("Lozc".to_string()),
        0x86 => Some("Tokuma Shoten I*".to_string()),
        0x8B => Some("Bullet-Proof Software".to_string()),
        0x8C => Some("Vic Tokai".to_string()),
        0x8E => Some("Ape".to_string()),
        0x8F => Some("I'Max".to_string()),
        0x91 => Some("Chun Soft".to_string()),
        0x92 => Some("Video System".to_string()),
        0x93 => Some("Tsubaraya Productions Co.".to_string()),
        0x95 => Some("Varie Corporation".to_string()),
        0x96 => Some("Yonezawa/S'Pal".to_string()),
        0x97 => Some("Kaneko".to_string()),
        0x99 => Some("Arc".to_string()),
        0x9A => Some("Nihon Bussan".to_string()),
        0x9B => Some("Tecmo".to_string()),
        0x9C => Some("Imagineer".to_string()),
        0x9D => Some("Banpresto".to_string()),
        0x9F => Some("Nova".to_string()),
        0xA1 => Some("Hori Electric".to_string()),
        0xA2 => Some("Bandai".to_string()),
        0xA4 => Some("Konami".to_string()),
        0xA6 => Some("Kawada".to_string()),
        0xA7 => Some("Takara".to_string()),
        0xA9 => Some("Technos Japan".to_string()),
        0xAA => Some("Broderbund".to_string()),
        0xAC => Some("Toei Animation".to_string()),
        0xAD => Some("Toho".to_string()),
        0xAF => Some("Namco".to_string()),
        0xB0 => Some("acclaim".to_string()),
        0xB1 => Some("ASCII or Nexsoft".to_string()),
        0xB2 => Some("Bandai".to_string()),
        0xB4 => Some("Square Enix".to_string()),
        0xB6 => Some("HAL Laboratory".to_string()),
        0xB7 => Some("SNK".to_string()),
        0xB9 => Some("Pony Canyon".to_string()),
        0xBA => Some("Culture Brain".to_string()),
        0xBB => Some("Sunsoft".to_string()),
        0xBD => Some("Sony Imagesoft".to_string()),
        0xBF => Some("Sammy".to_string()),
        0xC0 => Some("Taito".to_string()),
        0xC2 => Some("Kemco".to_string()),
        0xC3 => Some("Squaresoft".to_string()),
        0xC4 => Some("Tokuma Shoten Intermedia".to_string()),
        0xC5 => Some("Data East".to_string()),
        0xC6 => Some("Tonkinhouse".to_string()),
        0xC8 => Some("Koei".to_string()),
        0xC9 => Some("UFL".to_string()),
        0xCA => Some("Ultra".to_string()),
        0xCB => Some("Vap".to_string()),
        0xCC => Some("Use Corporation".to_string()),
        0xCD => Some("Meldac".to_string()),
        0xCE => Some(".Pony Canyon or".to_string()),
        0xCF => Some("Angel".to_string()),
        0xD0 => Some("Taito".to_string()),
        0xD1 => Some("Sofel".to_string()),
        0xD2 => Some("Quest".to_string()),
        0xD3 => Some("Sigma Enterprises".to_string()),
        0xD4 => Some("ASK Kodansha Co.".to_string()),
        0xD6 => Some("Naxat Soft".to_string()),
        0xD7 => Some("Copya System".to_string()),
        0xD9 => Some("Banpresto".to_string()),
        0xDA => Some("Tomy".to_string()),
        0xDB => Some("LJN".to_string()),
        0xDD => Some("NCS".to_string()),
        0xDE => Some("Human".to_string()),
        0xDF => Some("Altron".to_string()),
        0xE0 => Some("Jaleco".to_string()),
        0xE1 => Some("Towa Chiki".to_string()),
        0xE2 => Some("Yutaka".to_string()),
        0xE3 => Some("Varie".to_string()),
        0xE5 => Some("Epcoh".to_string()),
        0xE7 => Some("Athena".to_string()),
        0xE8 => Some("Asmik ACE Entertainment".to_string()),
        0xE9 => Some("Natsume".to_string()),
        0xEA => Some("King Records".to_string()),
        0xEB => Some("Atlus".to_string()),
        0xEC => Some("Epic/Sony Records".to_string()),
        0xEE => Some("IGS".to_string()),
        0xF0 => Some("A Wave".to_string()),
        0xF3 => Some("Extreme Entertainment".to_string()),
        0xFF => Some("LJN".to_string()),
        _ => None,
    }
}

/// Looks a new licensee code up in its table.
fn new_licensee(hi: u8, lo: u8) -> (r: Option<String>)
    ensures
        match new_licensee_name(hi, lo) {
            Some(name) => r is Some && r->0@ == name,
            None => r is None,
        },
{
    match (hi, lo) {
        (0x30, 0x30) => Some("None".to_string()),
        (0x30, 0x31) => Some("Nintendo R&D1".to_string()),
        (0x30, 0x38) => Some("Capcom".to_string()),
        (0x31, 0x33) => Some("Electronic Arts".to_string()),
        (0x31, 0x38) => Some("Hudson Soft".to_string()),
        (0x31, 0x39) => Some("B-AI".to_string()),
        (0x32, 0x30) => Some("KSS".to_string()),
        (0x32, 0x32) => Some("POW".to_string()),
        (0x32, 0x34) => Some("PCM Complete".to_string()),
        (0x32, 0x35) => Some("San-X".to_string()),
        (0x32, 0x38) => Some("Kemco Japan".to_string()),
        (0x32, 0x39) => Some("SETA".to_string()),
        (0x33, 0x30) => Some("Viacom".to_string()),
        (0x33, 0x31) => Some("Nintendo".to_string()),
        (0x33, 0x32) => Some("Bandai".to_string()),
        (0x33, 0x33) => Some("Ocean/Acclaim".to_string()),
        (0x33, 0x34) => Some("Konami".to_string()),
        (0x33, 0x35) => Some("HectorSoft".to_string()),
        (0x33, 0x37) => Some("Taito".to_string()),
        (0x33, 0x38) => Some("Hudson".to_string()),
        (0x33, 0x39) => Some("Banpresto".to_string()),
        (0x34, 0x31) => Some("Ubi Soft".to_string()),
        (0x34, 0x32) => Some("Atlus".to_string()),
        (0x34, 0x34) => Some("Malibu".to_string()),
        (0x34, 0x36) => Some("Angel".to_string()),
        (0x34, 0x37) => Some("Bullet-Proof".to_string()),
        (0x34, 0x39) => Some("Irem".to_string()),
        (0x35, 0x30) => Some("Absolute".to_string()),
        (0x35, 0x31) => Some("Acclaim".to_string()),
        (0x35, 0x32) => Some("Activision".to_string()),
        (0x35, 0x33) => Some("American Sammy".to_string()),
        (0x35, 0x34) => Some("Konami".to_string()),
        (0x35, 0x35) => Some("Hi tech entertainment".to_string()),
        (0x35, 0x36) => Some("LJN".to_string()),
        (0x35, 0x37) => Some("Matchbox".to_string()),
        (0x35, 0x38) => Some("Mattel".to_string()),
        (0x35, 0x39) => Some("Milton Bradley".to_string()),
        (0x36, 0x30) => Some("Titus".to_string()),
        (0x36, 0x31) => Some("Virgin".to_string()),
        (0x36, 0x34) => Some("LucasArts".to_string()),
        (0x36, 0x37) => Some("Ocean".to_string()),
        (0x36, 0x39) => Some("Electronic Arts".to_string()),
        (0x37, 0x30) => Some("Infogrames".to_string()),
        (0x37, 0x31) => Some("Interplay".to_string()),
        (0x37, 0x32) => Some("Broderbund".to_string()),
        (0x37, 0x33) => Some("Sculptured".to_string()),
        (0x37, 0x35) => Some("SCI".to_string()),
        (0x37, 0x38) => Some("THQ".to_string()),
        (0x37, 0x39) => Some("Accolade".to_string()),
        (0x38, 0x30) => Some("Misawa".to_string()),
        (0x38, 0x33) => Some("LOZC".to_string()),
        (0x38, 0x36) => Some("Tokuma Shoten Intermedia".to_string()),
        (0x38, 0x37) => Some("Tsukuda Original".to_string()),
        (0x39, 0x31) => Some("Chunsoft".to_string()),
        (0x39, 0x32) => Some("Video system".to_string()),
        (0x39, 0x33) => Some("Ocean/Acclaim".to_string()),
        (0x39, 0x35) => Some("Varie".to_string()),
        (0x39, 0x36) => Some("Yonezawa/S'PAL".to_string()),
        (0x39, 0x37) => Some("Kaneko".to_string()),
        (0x39, 0x39) => Some("Pack in soft".to_string()),
        (0x39, 0x48) => Some("Bottom Up".to_string()),
        (0x41, 0x34) => Some("Konami (Yu-Gi-Oh!)".to_string()),
        _ => None,
    }
}

/// Names the publisher of a cartridge from the old licensee code and the two
/// characters of the new one.
pub fn get_licensee(old_licensee_code: &u8, licensee_hi: &u8, licensee_lo: &u8) -> (r: String)
    ensures
        r@ == licensee_name(*old_licensee_code, *licensee_hi, *licensee_lo),
{
    if *old_licensee_code == 0x33 {
        match new_licensee(*licensee_hi, *licensee_lo) {
            Some(name) => name,
            None => unknown_licensee(*licensee_hi as char, *licensee_lo as char),
        }
    } else {
        match old_licensee(*old_licensee_code) {
            Some(name) => name,
            None => unknown_licensee(
                upper_digit_char(*old_licensee_code / 16),
                upper_digit_char(*old_licensee_code % 16),
            ),
        }
    }
}

/// Whether the image carries the logo at 0x0104..=0x0133.
pub open spec fn logo_matches(rom: Seq<u8>) -> bool {
    forall|i: int| 0 <= i < 48 ==> rom[LOGO_START as int + i] == NINTENDO_LOGO[i]
}

/// Checks the logo of an image that is long enough to hold a header.
pub fn validate_nintendo_logo(rom: &[u8]) -> (r: Result<(), CartError>)
    requires
        rom.len() >= 0x0150,
    ensures
        logo_matches(rom@) ==> r == Ok::<(), CartError>(()),
        !logo_matches(rom@) ==> r == Err::<(), CartError>(CartError::InvalidLogo),
{
    let mut i: usize = 0;
    while i < 48
        invariant
            i <= 48,
            rom.len() >= 0x0150,
            forall|j: int| 0 <= j < i ==> rom[LOGO_START as int + j] == NINTENDO_LOGO[j],
        decreases 48 - i,
    {
        if rom[LOGO_START + i] != NINTENDO_LOGO[i] {
            return Err(CartError::InvalidLogo);
        }
        i += 1;
    }
    Ok(())
}

/// Sum of the bytes of `rom` from `from` up to, not including, `to`.
pub open spec fn byte_sum(rom: Seq<u8>, from: int, to: int) -> int
    decreases to - from,
{
    if to <= from {
        0
    } else {
        byte_sum(rom, from, to - 1) + rom[to - 1]
    }
}

/// The header checksum of an image: minus one minus the byte, for each of the
/// 25 bytes at 0x0134..=0x014C, in eight-bit wrapping arithmetic.
pub open spec fn header_checksum(rom: Seq<u8>) -> u8 {
    ((-byte_sum(rom, CHECKSUM_START as int, CHECKSUM_AT as int) - 25) % 256) as u8
}

/// Checks the header checksum of an image that is long enough to hold a
/// header. The error carries the checksum computed and the one stored at
/// 0x014D.
pub fn validate_header_checksum(rom: &[u8]) -> (r: Result<(), CartError>)
    requires
        rom.len() >= 0x0150,
    ensures
        header_checksum(rom@) == rom[CHECKSUM_AT as int] ==> r == Ok::<(), CartError>(()),
        header_checksum(rom@) != rom[CHECKSUM_AT as int] ==> r == Err::<(), CartError>(
            CartError::HeaderCheckSumFailure {
                computed_checksum: header_checksum(rom@),
                expected_checksum: rom[CHECKSUM_AT as int],
            },
        ),
{
    let mut checksum: u8 = 0;
    let mut i: usize = CHECKSUM_START;
    while i < CHECKSUM_AT
        invariant
            CHECKSUM_START <= i <= CHECKSUM_AT,
            rom.len() >= 0x0150,
            checksum as int == (-byte_sum(rom@, CHECKSUM_START as int, i as int) - (i
                - CHECKSUM_START)) % 256,
        decreases CHECKSUM_AT - i,
    {
        checksum = checksum.wrapping_sub(rom[i]).wrapping_sub(1);
        i += 1;
    }
    let expected = rom[CHECKSUM_AT];
    if checksum != expected {
        return Err(
            CartError::HeaderCheckSumFailure {
                computed_checksum: checksum,
                expected_checksum: expected,
            },
        );
    }
    Ok(())
}

} // verus!

//! The SM83 instruction set: operand descriptors, the instruction type and
//! the decoders for the primary and the 0xCB-prefixed opcode tables.
use crate::text::{append_hexadecimal, hexadecimal};
use vstd::prelude::*;

verus! {

/// Destination of a load.
#[derive(Debug, Clone, Copy, PartialEq, Eq, Structural)]
pub enum LoadTarget {
    A,
    BC,
    DE,
    HL,
    SP,
    BCAddr,
    DEAddr,
    HLAddrInc,
    HLAddrDec,
    HLAddr,
    B,
    D,
    H,
    PCAddr,
    PC16Addr,
    C,
    E,
    L,
}

/// Source of a load.
#[derive(Debug, Clone, Copy, PartialEq, Eq, Structural)]
pub enum LoadSource {
    PCAddr,
    HL,
    SPE,
    BCAddr,
    DEAddr,
    HLAddrInc,
    HLAddrDec,
    SP,
    A,
    PC,
    PC16,
    B,
    C,
    D,
    E,
    H,
    L,
    HLAddr,
}

/// Operand of INC.
#[derive(Debug, Clone, Copy, PartialEq, Eq, Structural)]
pub enum IncrementTarget {
    BC,
    DE,
    HL,
    SP,
    B,
    D,
    H,
    HLAddr,
    C,
    E,
    L,
    A,
}

/// Operand of DEC.
#[derive(Debug, Clone, Copy, PartialEq, Eq, Structural)]
pub enum DecrementTarget {
    B,
    D,
    H,
    HLAddr,
    BC,
    DE,
    HL,
    SP,
    C,
    E,
    L,
    A,
}

/// Condition of a jump, call or return.
#[derive(Debug, Clone, Copy, PartialEq, Eq, Structural)]
pub enum JumpCondition {
    Always,
    Z,
    C,
    NZ,
    NC,
}

/// Destination of ADD.
#[derive(Debug, Clone, Copy, PartialEq, Eq, Structural)]
pub enum AddTarget {
    SP,
    A,
    HL,
}

/// Source of ADD.
#[derive(Debug, Clone, Copy, PartialEq, Eq, Structural)]
pub enum AddSource {
    BC,
    DE,
    HL,
    SP,
    A,
    B,
    C,
    D,
    E,
    H,
    L,
    PC,
    PCe,
    HLAddr,
}

/// Source of ADC.
#[derive(Debug, Clone, Copy, PartialEq, Eq, Structural)]
pub enum AddCarrySource {
    PC,
    A,
    B,
    C,
    D,
    E,
    H,
    L,
    HLAddr,
}

/// Source of SBC.
#[derive(Debug, Clone, Copy, PartialEq, Eq, Structural)]
pub enum SubtractCarrySource {
    A,
    B,
    C,
    D,
    E,
    H,
    L,
    HLAddr,
    PC,
}

/// Source of SUB.
#[derive(Debug, Clone, Copy, PartialEq, Eq, Structural)]
pub enum SubtractSource {
    A,
    B,
    C,
    D,
    E,
    H,
    PC,
    L,
    HLAddr,
}

/// Source of AND.
#[derive(Debug, Clone, Copy, PartialEq, Eq, Structural)]
pub enum AndSource {
    PC,
    A,
    B,
    C,
    D,
    E,
    H,
    L,
    HLAddr,
}

/// Source of CP.
#[derive(Debug, Clone, Copy, PartialEq, Eq, Structural)]
pub enum CompareSource {
    A,
    B,
    C,
    D,
    E,
    H,
    L,
    HLAddr,
    PC,
}

/// Source of XOR.
#[derive(Debug, Clone, Copy, PartialEq, Eq, Structural)]
pub enum XOrSource {
    PC,
    A,
    B,
    C,
    D,
    E,
    H,
    L,
    HLAddr,
}

/// Source of OR.
#[derive(Debug, Clone, Copy, PartialEq, Eq, Structural)]
pub enum OrSource {
    PC,
    A,
    B,
    C,
    D,
    E,
    H,
    L,
    HLAddr,
}

/// Register pair filled by POP.
#[derive(Debug, Clone, Copy, PartialEq, Eq, Structural)]
pub enum PopTarget {
    BC,
    DE,
    HL,
    AF,
}

/// Register pair stored by PUSH.
#[derive(Debug, Clone, Copy, PartialEq, Eq, Structural)]
pub enum PushTarget {
    BC,
    DE,
    HL,
    AF,
}

/// Destination of a high-page load.
#[derive(Debug, Clone, Copy, PartialEq, Eq, Structural)]
pub enum LoadAccumulatorTarget {
    PCAddr,
    A,
    CAddr,
}

/// Source of a high-page load.
#[derive(Debug, Clone, Copy, PartialEq, Eq, Structural)]
pub enum LoadAccumulatorSource {
    A,
    PCAddr,
    CAddr,
}

/// Operand of the rotate, shift and bit instructions.
#[derive(Debug, Clone, Copy, PartialEq, Eq, Structural)]
pub enum BitwiseSource {
    B,
    C,
    D,
    E,
    H,
    L,
    HLAddr,
    A,
}

/// An eight-bit operand: a register, the byte at HL, or the byte after the opcode.
#[derive(Debug, Clone, Copy, PartialEq, Eq, Structural)]
pub enum Operand8 {
    A,
    B,
    C,
    D,
    E,
    H,
    L,
    HLAddr,
    Immediate,
}

impl AddCarrySource {
    /// The eight-bit operand this descriptor names.
    pub open spec fn operand_spec(self) -> Operand8 {
        match self {
            AddCarrySource::PC => Operand8::Immediate,
            AddCarrySource::A => Operand8::A,
            AddCarrySource::B => Operand8::B,
            AddCarrySource::C => Operand8::C,
            AddCarrySource::D => Operand8::D,
            AddCarrySource::E => Operand8::E,
            AddCarrySource::H => Operand8::H,
            AddCarrySource::L => Operand8::L,
            AddCarrySource::HLAddr => Operand8::HLAddr,
        }
    }

    /// The eight-bit operand this descriptor names.
    pub fn operand(self) -> (r: Operand8)
        ensures
            r == self.operand_spec(),
    {
        match self {
            AddCarrySource::PC => Operand8::Immediate,
            AddCarrySource::A => Operand8::A,
            AddCarrySource::B => Operand8::B,
            AddCarrySource::C => Operand8::C,
            AddCarrySource::D => Operand8::D,
            AddCarrySource::E => Operand8::E,
            AddCarrySource::H => Operand8::H,
            AddCarrySource::L => Operand8::L,
            AddCarrySource::HLAddr => Operand8::HLAddr,
        }
    }
}

impl SubtractCarrySource {
    /// The eight-bit operand this descriptor names.
    pub open spec fn operand_spec(self) -> Operand8 {
        match self {
            SubtractCarrySource::A => Operand8::A,
            SubtractCarrySource::B => Operand8::B,
            SubtractCarrySource::C => Operand8::C,
            SubtractCarrySource::D => Operand8::D,
            SubtractCarrySource::E => Operand8::E,
            SubtractCarrySource::H => Operand8::H,
            SubtractCarrySource::L => Operand8::L,
            SubtractCarrySource::HLAddr => Operand8::HLAddr,
            SubtractCarrySource::PC => Operand8::Immediate,
        }
    }

    /// The eight-bit operand this descriptor names.
    pub fn operand(self) -> (r: Operand8)
        ensures
            r == self.operand_spec(),
    {
        match self {
            SubtractCarrySource::A => Operand8::A,
            SubtractCarrySource::B => Operand8::B,
            SubtractCarrySource::C => Operand8::C,
            SubtractCarrySource::D => Operand8::D,
            SubtractCarrySource::E => Operand8::E,
            SubtractCarrySource::H => Operand8::H,
            SubtractCarrySource::L => Operand8::L,
            SubtractCarrySource::HLAddr => Operand8::HLAddr,
            SubtractCarrySource::PC => Operand8::Immediate,
        }
    }
}

impl SubtractSource {
    /// The eight-bit operand this descriptor names.
    pub open spec fn operand_spec(self) -> Operand8 {
        match self {
            SubtractSource::A => Operand8::A,
            SubtractSource::B => Operand8::B,
            SubtractSource::C => Operand8::C,
            SubtractSource::D => Operand8::D,
            SubtractSource::E => Operand8::E,
            SubtractSource::H => Operand8::H,
            SubtractSource::PC => Operand8::Immediate,
            SubtractSource::L => Operand8::L,
            SubtractSource::HLAddr => Operand8::HLAddr,
        }
    }

    /// The eight-bit operand this descriptor names.
    pub fn operand(self) -> (r: Operand8)
        ensures
            r == self.operand_spec(),
    {
        match self {
            SubtractSource::A => Operand8::A,
            SubtractSource::B => Operand8::B,
            SubtractSource::C => Operand8::C,
            SubtractSource::D => Operand8::D,
            SubtractSource::E => Operand8::E,
            SubtractSource::H => Operand8::H,
            SubtractSource::PC => Operand8::Immediate,
            SubtractSource::L => Operand8::L,
            SubtractSource::HLAddr => Operand8::HLAddr,
        }
    }
}

impl AndSource {
    /// The eight-bit operand this descriptor names.
    pub open spec fn operand_spec(self) -> Operand8 {
        match self {
            AndSource::PC => Operand8::Immediate,
            AndSource::A => Operand8::A,
            AndSource::B => Operand8::B,
            AndSource::C => Operand8::C,
            AndSource::D => Operand8::D,
            AndSource::E => Operand8::E,
            AndSource::H => Operand8::H,
            AndSource::L => Operand8::L,
            AndSource::HLAddr => Operand8::HLAddr,
        }
    }

    /// The eight-bit operand this descriptor names.
    pub fn operand(self) -> (r: Operand8)
        ensures
            r == self.operand_spec(),
    {
        match self {
            AndSource::PC => Operand8::Immediate,
            AndSource::A => Operand8::A,
            AndSource::B => Operand8::B,
            AndSource::C => Operand8::C,
            AndSource::D => Operand8::D,
            AndSource::E => Operand8::E,
            AndSource::H => Operand8::H,
            AndSource::L => Operand8::L,
            AndSource::HLAddr => Operand8::HLAddr,
        }
    }
}

impl CompareSource {
    /// The eight-bit operand this descriptor names.
    pub open spec fn operand_spec(self) -> Operand8 {
        match self {
            CompareSource::A => Operand8::A,
            CompareSource::B => Operand8::B,
            CompareSource::C => Operand8::C,
            CompareSource::D => Operand8::D,
            CompareSource::E => Operand8::E,
            CompareSource::H => Operand8::H,
            CompareSource::L => Operand8::L,
            CompareSource::HLAddr => Operand8::HLAddr,
            CompareSource::PC => Operand8::Immediate,
        }
    }

    /// The eight-bit operand this descriptor names.
    pub fn operand(self) -> (r: Operand8)
        ensures
            r == self.operand_spec(),
    {
        match self {
            CompareSource::A => Operand8::A,
            CompareSource::B => Operand8::B,
            CompareSource::C => Operand8::C,
            CompareSource::D => Operand8::D,
            CompareSource::E => Operand8::E,
            CompareSource::H => Operand8::H,
            CompareSource::L => Operand8::L,
            CompareSource::HLAddr => Operand8::HLAddr,
            CompareSource::PC => Operand8::Immediate,
        }
    }
}

impl XOrSource {
    /// The eight-bit operand this descriptor names.
    pub open spec fn operand_spec(self) -> Operand8 {
        match self {
            XOrSource::PC => Operand8::Immediate,
            XOrSource::A => Operand8::A,
            XOrSource::B => Operand8::B,
            XOrSource::C => Operand8::C,
            XOrSource::D => Operand8::D,
            XOrSource::E => Operand8::E,
            XOrSource::H => Operand8::H,
            XOrSource::L => Operand8::L,
            XOrSource::HLAddr => Operand8::HLAddr,
        }
    }

    /// The eight-bit operand this descriptor names.
    pub fn operand(self) -> (r: Operand8)
        ensures
            r == self.operand_spec(),
    {
        match self {
            XOrSource::PC => Operand8::Immediate,
            XOrSource::A => Operand8::A,
            XOrSource::B => Operand8::B,
            XOrSource::C => Operand8::C,
            XOrSource::D => Operand8::D,
            XOrSource::E => Operand8::E,
            XOrSource::H => Operand8::H,
            XOrSource::L => Operand8::L,
            XOrSource::HLAddr => Operand8::HLAddr,
        }
    }
}

impl OrSource {
    /// The eight-bit operand this descriptor names.
    pub open spec fn operand_spec(self) -> Operand8 {
        match self {
            OrSource::PC => Operand8::Immediate,
            OrSource::A => Operand8::A,
            OrSource::B => Operand8::B,
            OrSource::C => Operand8::C,
            OrSource::D => Operand8::D,
            OrSource::E => Operand8::E,
            OrSource::H => Operand8::H,
            OrSource::L => Operand8::L,
            OrSource::HLAddr => Operand8::HLAddr,
        }
    }

    /// The eight-bit operand this descriptor names.
    pub fn operand(self) -> (r: Operand8)
        ensures
            r == self.operand_spec(),
    {
        match self {
            OrSource::PC => Operand8::Immediate,
            OrSource::A => Operand8::A,
            OrSource::B => Operand8::B,
            OrSource::C => Operand8::C,
            OrSource::D => Operand8::D,
            OrSource::E => Operand8::E,
            OrSource::H => Operand8::H,
            OrSource::L => Operand8::L,
            OrSource::HLAddr => Operand8::HLAddr,
        }
    }
}

impl BitwiseSource {
    /// The eight-bit operand this descriptor names.
    pub open spec fn operand_spec(self) -> Operand8 {
        match self {
            BitwiseSource::B => Operand8::B,
            BitwiseSource::C => Operand8::C,
            BitwiseSource::D => Operand8::D,
            BitwiseSource::E => Operand8::E,
            BitwiseSource::H => Operand8::H,
            BitwiseSource::L => Operand8::L,
            BitwiseSource::HLAddr => Operand8::HLAddr,
            BitwiseSource::A => Operand8::A,
        }
    }

    /// The eight-bit operand this descriptor names.
    pub fn operand(self) -> (r: Operand8)
        ensures
            r == self.operand_spec(),
    {
        match self {
            BitwiseSource::B => Operand8::B,
            BitwiseSource::C => Operand8::C,
            BitwiseSource::D => Operand8::D,
            BitwiseSource::E => Operand8::E,
            BitwiseSource::H => Operand8::H,
            BitwiseSource::L => Operand8::L,
            BitwiseSource::HLAddr => Operand8::HLAddr,
            BitwiseSource::A => Operand8::A,
        }
    }
}

impl LoadTarget {
    /// The name of this operand.
    pub open spec fn name_spec(self) -> Seq<char> {
        match self {
            LoadTarget::A => "A"@,
            LoadTarget::BC => "BC"@,
            LoadTarget::DE => "DE"@,
            LoadTarget::HL => "HL"@,
            LoadTarget::SP => "SP"@,
            LoadTarget::BCAddr => "BCAddr"@,
            LoadTarget::DEAddr => "DEAddr"@,
            LoadTarget::HLAddrInc => "HLAddrInc"@,
            LoadTarget::HLAddrDec => "HLAddrDec"@,
            LoadTarget::HLAddr => "HLAddr"@,
            LoadTarget::B => "B"@,
            LoadTarget::D => "D"@,
            LoadTarget::H => "H"@,
            LoadTarget::PCAddr => "PCAddr"@,
            LoadTarget::PC16Addr => "PC16Addr"@,
            LoadTarget::C => "C"@,
            LoadTarget::E => "E"@,
            LoadTarget::L => "L"@,
        }
    }

    /// The name of this operand.
    pub fn name(&self) -> (r: &'static str)
        ensures
            r@ == self.name_spec(),
    {
        match self {
            LoadTarget::A => "A",
            LoadTarget::BC => "BC",
            LoadTarget::DE => "DE",
            LoadTarget::HL => "HL",
            LoadTarget::SP => "SP",
            LoadTarget::BCAddr => "BCAddr",
            LoadTarget::DEAddr => "DEAddr",
            LoadTarget::HLAddrInc => "HLAddrInc",
            LoadTarget::HLAddrDec => "HLAddrDec",
            LoadTarget::HLAddr => "HLAddr",
            LoadTarget::B => "B",
            LoadTarget::D => "D",
            LoadTarget::H => "H",
            LoadTarget::PCAddr => "PCAddr",
            LoadTarget::PC16Addr => "PC16Addr",
            LoadTarget::C => "C",
            LoadTarget::E => "E",
            LoadTarget::L => "L",
        }
    }
}

impl LoadSource {
    /// The name of this operand.
    pub open spec fn name_spec(self) -> Seq<char> {
        match self {
            LoadSource::PCAddr => "PCAddr"@,
            LoadSource::HL => "HL"@,
            LoadSource::SPE => "SPE"@,
            LoadSource::BCAddr => "BCAddr"@,
            LoadSource::DEAddr => "DEAddr"@,
            LoadSource::HLAddrInc => "HLAddrInc"@,
            LoadSource::HLAddrDec => "HLAddrDec"@,
            LoadSource::SP => "SP"@,
            LoadSource::A => "A"@,
            LoadSource::PC => "PC"@,
            LoadSource::PC16 => "PC16"@,
            LoadSource::B => "B"@,
            LoadSource::C => "C"@,
            LoadSource::D => "D"@,
            LoadSource::E => "E"@,
            LoadSource::H => "H"@,
            LoadSource::L => "L"@,
            LoadSource::HLAddr => "HLAddr"@,
        }
    }

    /// The name of this operand.
    pub fn name(&self) -> (r: &'static str)
        ensures
            r@ == self.name_spec(),
    {
        match self {
            LoadSource::PCAddr => "PCAddr",
            LoadSource::HL => "HL",
            LoadSource::SPE => "SPE",
            LoadSource::BCAddr => "BCAddr",
            LoadSource::DEAddr => "DEAddr",
            LoadSource::HLAddrInc => "HLAddrInc",
            LoadSource::HLAddrDec => "HLAddrDec",
            LoadSource::SP => "SP",
            LoadSource::A => "A",
            LoadSource::PC => "PC",
            LoadSource::PC16 => "PC16",
            LoadSource::B => "B",
            LoadSource::C => "C",
            LoadSource::D => "D",
            LoadSource::E => "E",
            LoadSource::H => "H",
            LoadSource::L => "L",
            LoadSource::HLAddr => "HLAddr",
        }
    }
}

impl IncrementTarget {
    /// The name of this operand.
    pub open spec fn name_spec(self) -> Seq<char> {
        match self {
            IncrementTarget::BC => "BC"@,
            IncrementTarget::DE => "DE"@,
            IncrementTarget::HL => "HL"@,
            IncrementTarget::SP => "SP"@,
            IncrementTarget::B => "B"@,
            IncrementTarget::D => "D"@,
            IncrementTarget::H => "H"@,
            IncrementTarget::HLAddr => "HLAddr"@,
            IncrementTarget::C => "C"@,
            IncrementTarget::E => "E"@,
            IncrementTarget::L => "L"@,
            IncrementTarget::A => "A"@,
        }
    }

    /// The name of this operand.
    pub fn name(&self) -> (r: &'static str)
        ensures
            r@ == self.name_spec(),
    {
        match self {
            IncrementTarget::BC => "BC",
            IncrementTarget::DE => "DE",
            IncrementTarget::HL => "HL",
            IncrementTarget::SP => "SP",
            IncrementTarget::B => "B",
            IncrementTarget::D => "D",
            IncrementTarget::H => "H",
            IncrementTarget::HLAddr => "HLAddr",
            IncrementTarget::C => "C",
            IncrementTarget::E => "E",
            IncrementTarget::L => "L",
            IncrementTarget::A => "A",
        }
    }
}

impl DecrementTarget {
    /// The name of this operand.
    pub open spec fn name_spec(self) -> Seq<char> {
        match self {
            DecrementTarget::B => "B"@,
            DecrementTarget::D => "D"@,
            DecrementTarget::H => "H"@,
            DecrementTarget::HLAddr => "HLAddr"@,
            DecrementTarget::BC => "BC"@,
            DecrementTarget::DE => "DE"@,
            DecrementTarget::HL => "HL"@,
            DecrementTarget::SP => "SP"@,
            DecrementTarget::C => "C"@,
            DecrementTarget::E => "E"@,
            DecrementTarget::L => "L"@,
            DecrementTarget::A => "A"@,
        }
    }

    /// The name of this operand.
    pub fn name(&self) -> (r: &'static str)
        ensures
            r@ == self.name_spec(),
    {
        match self {
            DecrementTarget::B => "B",
            DecrementTarget::D => "D",
            DecrementTarget::H => "H",
            DecrementTarget::HLAddr => "HLAddr",
            DecrementTarget::BC => "BC",
            DecrementTarget::DE => "DE",
            DecrementTarget::HL => "HL",
            DecrementTarget::SP => "SP",
            DecrementTarget::C => "C",
            DecrementTarget::E => "E",
            DecrementTarget::L => "L",
            DecrementTarget::A => "A",
        }
    }
}

impl JumpCondition {
    /// The name of this operand.
    pub open spec fn name_spec(self) -> Seq<char> {
        match self {
            JumpCondition::Always => "None"@,
            JumpCondition::Z => "Z"@,
            JumpCondition::C => "C"@,
            JumpCondition::NZ => "NZ"@,
            JumpCondition::NC => "NC"@,
        }
    }

    /// The name of this operand.
    pub fn name(&self) -> (r: &'static str)
        ensures
            r@ == self.name_spec(),
    {
        match self {
            JumpCondition::Always => "None",
            JumpCondition::Z => "Z",
            JumpCondition::C => "C",
            JumpCondition::NZ => "NZ",
            JumpCondition::NC => "NC",
        }
    }
}

impl AddTarget {
    /// The name of this operand.
    pub open spec fn name_spec(self) -> Seq<char> {
        match self {
            AddTarget::SP => "SP"@,
            AddTarget::A => "A"@,
            AddTarget::HL => "HL"@,
        }
    }

    /// The name of this operand.
    pub fn name(&self) -> (r: &'static str)
        ensures
            r@ == self.name_spec(),
    {
        match self {
            AddTarget::SP => "SP",
            AddTarget::A => "A",
            AddTarget::HL => "HL",
        }
    }
}

impl AddSource {
    /// The name of this operand.
    pub open spec fn name_spec(self) -> Seq<char> {
        match self {
            AddSource::BC => "BC"@,
            AddSource::DE => "DE"@,
            AddSource::HL => "HL"@,
            AddSource::SP => "SP"@,
            AddSource::A => "A"@,
            AddSource::B => "B"@,
            AddSource::C => "C"@,
            AddSource::D => "D"@,
            AddSource::E => "E"@,
            AddSource::H => "H"@,
            AddSource::L => "L"@,
            AddSource::PC => "PC"@,
            AddSource::PCe => "PCe"@,
            AddSource::HLAddr => "HLAddr"@,
        }
    }

    /// The name of this operand.
    pub fn name(&self) -> (r: &'static str)
        ensures
            r@ == self.name_spec(),
    {
        match self {
            AddSource::BC => "BC",
            AddSource::DE => "DE",
            AddSource::HL => "HL",
            AddSource::SP => "SP",
            AddSource::A => "A",
            AddSource::B => "B",
            AddSource::C => "C",
            AddSource::D => "D",
            AddSource::E => "E",
            AddSource::H => "H",
            AddSource::L => "L",
            AddSource::PC => "PC",
            AddSource::PCe => "PCe",
            AddSource::HLAddr => "HLAddr",
        }
    }
}

impl AddCarrySource {
    /// The name of this operand.
    pub open spec fn name_spec(self) -> Seq<char> {
        match self {
            AddCarrySource::PC => "PC"@,
            AddCarrySource::A => "A"@,
            AddCarrySource::B => "B"@,
            AddCarrySource::C => "C"@,
            AddCarrySource::D => "D"@,
            AddCarrySource::E => "E"@,
            AddCarrySource::H => "H"@,
            AddCarrySource::L => "L"@,
            AddCarrySource::HLAddr => "HLAddr"@,
        }
    }

    /// The name of this operand.
    pub fn name(&self) -> (r: &'static str)
        ensures
            r@ == self.name_spec(),
    {
        match self {
            AddCarrySource::PC => "PC",
            AddCarrySource::A => "A",
            AddCarrySource::B => "B",
            AddCarrySource::C => "C",
            AddCarrySource::D => "D",
            AddCarrySource::E => "E",
            AddCarrySource::H => "H",
            AddCarrySource::L => "L",
            AddCarrySource::HLAddr => "HLAddr",
        }
    }
}

impl SubtractCarrySource {
    /// The name of this operand.
    pub open spec fn name_spec(self) -> Seq<char> {
        match self {
            SubtractCarrySource::A => "A"@,
            SubtractCarrySource::B => "B"@,
            SubtractCarrySource::C => "C"@,
            SubtractCarrySource::D => "D"@,
            SubtractCarrySource::E => "E"@,
            SubtractCarrySource::H => "H"@,
            SubtractCarrySource::L => "L"@,
            SubtractCarrySource::HLAddr => "HLAddr"@,
            SubtractCarrySource::PC => "PC"@,
        }
    }

    /// The name of this operand.
    pub fn name(&self) -> (r: &'static str)
        ensures
            r@ == self.name_spec(),
    {
        match self {
            SubtractCarrySource::A => "A",
            SubtractCarrySource::B => "B",
            SubtractCarrySource::C => "C",
            SubtractCarrySource::D => "D",
            SubtractCarrySource::E => "E",
            SubtractCarrySource::H => "H",
            SubtractCarrySource::L => "L",
            SubtractCarrySource::HLAddr => "HLAddr",
            SubtractCarrySource::PC => "PC",
        }
    }
}

impl SubtractSource {
    /// The name of this operand.
    pub open spec fn name_spec(self) -> Seq<char> {
        match self {
            SubtractSource::A => "A"@,
            SubtractSource::B => "B"@,
            SubtractSource::C => "C"@,
            SubtractSource::D => "D"@,
            SubtractSource::E => "E"@,
            SubtractSource::H => "H"@,
            SubtractSource::PC => "PC"@,
            SubtractSource::L => "L"@,
            SubtractSource::HLAddr => "HLAddr"@,
        }
    }

    /// The name of this operand.
    pub fn name(&self) -> (r: &'static str)
        ensures
            r@ == self.name_spec(),
    {
        match self {
            SubtractSource::A => "A",
            SubtractSource::B => "B",
            SubtractSource::C => "C",
            SubtractSource::D => "D",
            SubtractSource::E => "E",
            SubtractSource::H => "H",
            SubtractSource::PC => "PC",
            SubtractSource::L => "L",
            SubtractSource::HLAddr => "HLAddr",
        }
    }
}

impl AndSource {
    /// The name of this operand.
    pub open spec fn name_spec(self) -> Seq<char> {
        match self {
            AndSource::PC => "PC"@,
            AndSource::A => "A"@,
            AndSource::B => "B"@,
            AndSource::C => "C"@,
            AndSource::D => "D"@,
            AndSource::E => "E"@,
            AndSource::H => "H"@,
            AndSource::L => "L"@,
            AndSource::HLAddr => "HLAddr"@,
        }
    }

    /// The name of this operand.
    pub fn name(&self) -> (r: &'static str)
        ensures
            r@ == self.name_spec(),
    {
        match self {
            AndSource::PC => "PC",
            AndSource::A => "A",
            AndSource::B => "B",
            AndSource::C => "C",
            AndSource::D => "D",
            AndSource::E => "E",
            AndSource::H => "H",
            AndSource::L => "L",
            AndSource::HLAddr => "HLAddr",
        }
    }
}

impl CompareSource {
    /// The name of this operand.
    pub open spec fn name_spec(self) -> Seq<char> {
        match self {
            CompareSource::A => "A"@,
            CompareSource::B => "B"@,
            CompareSource::C => "C"@,
            CompareSource::D => "D"@,
            CompareSource::E => "E"@,
            CompareSource::H => "H"@,
            CompareSource::L => "L"@,
            CompareSource::HLAddr => "HLAddr"@,
            CompareSource::PC => "PC"@,
        }
    }

    /// The name of this operand.
    pub fn name(&self) -> (r: &'static str)
        ensures
            r@ == self.name_spec(),
    {
        match self {
            CompareSource::A => "A",
            CompareSource::B => "B",
            CompareSource::C => "C",
            CompareSource::D => "D",
            CompareSource::E => "E",
            CompareSource::H => "H",
            CompareSource::L => "L",
            CompareSource::HLAddr => "HLAddr",
            CompareSource::PC => "PC",
        }
    }
}

impl XOrSource {
    /// The name of this operand.
    pub open spec fn name_spec(self) -> Seq<char> {
        match self {
            XOrSource::PC => "PC"@,
            XOrSource::A => "A"@,
            XOrSource::B => "B"@,
            XOrSource::C => "C"@,
            XOrSource::D => "D"@,
            XOrSource::E => "E"@,
            XOrSource::H => "H"@,
            XOrSource::L => "L"@,
            XOrSource::HLAddr => "HLAddr"@,
        }
    }

    /// The name of this operand.
    pub fn name(&self) -> (r: &'static str)
        ensures
            r@ == self.name_spec(),
    {
        match self {
            XOrSource::PC => "PC",
            XOrSource::A => "A",
            XOrSource::B => "B",
            XOrSource::C => "C",
            XOrSource::D => "D",
            XOrSource::E => "E",
            XOrSource::H => "H",
            XOrSource::L => "L",
            XOrSource::HLAddr => "HLAddr",
        }
    }
}

impl OrSource {
    /// The name of this operand.
    pub open spec fn name_spec(self) -> Seq<char> {
        match self {
            OrSource::PC => "PC"@,
            OrSource::A => "A"@,
            OrSource::B => "B"@,
            OrSource::C => "C"@,
            OrSource::D => "D"@,
            OrSource::E => "E"@,
            OrSource::H => "H"@,
            OrSource::L => "L"@,
            OrSource::HLAddr => "HLAddr"@,
        }
    }

    /// The name of this operand.
    pub fn name(&self) -> (r: &'static str)
        ensures
            r@ == self.name_spec(),
    {
        match self {
            OrSource::PC => "PC",
            OrSource::A => "A",
            OrSource::B => "B",
            OrSource::C => "C",
            OrSource::D => "D",
            OrSource::E => "E",
            OrSource::H => "H",
            OrSource::L => "L",
            OrSource::HLAddr => "HLAddr",
        }
    }
}

impl PopTarget {
    /// The name of this operand.
    pub open spec fn name_spec(self) -> Seq<char> {
        match self {
            PopTarget::BC => "BC"@,
            PopTarget::DE => "DE"@,
            PopTarget::HL => "HL"@,
            PopTarget::AF => "AF"@,
        }
    }

    /// The name of this operand.
    pub fn name(&self) -> (r: &'static str)
        ensures
            r@ == self.name_spec(),
    {
        match self {
            PopTarget::BC => "BC",
            PopTarget::DE => "DE",
            PopTarget::HL => "HL",
            PopTarget::AF => "AF",
        }
    }
}

impl PushTarget {
    /// The name of this operand.
    pub open spec fn name_spec(self) -> Seq<char> {
        match self {
            PushTarget::BC => "BC"@,
            PushTarget::DE => "DE"@,
            PushTarget::HL => "HL"@,
            PushTarget::AF => "AF"@,
        }
    }

    /// The name of this operand.
    pub fn name(&self) -> (r: &'static str)
        ensures
            r@ == self.name_spec(),
    {
        match self {
            PushTarget::BC => "BC",
            PushTarget::DE => "DE",
            PushTarget::HL => "HL",
            PushTarget::AF => "AF",
        }
    }
}

impl LoadAccumulatorTarget {
    /// The name of this operand.
    pub open spec fn name_spec(self) -> Seq<char> {
        match self {
            LoadAccumulatorTarget::PCAddr => "PCAddr"@,
            LoadAccumulatorTarget::A => "A"@,
            LoadAccumulatorTarget::CAddr => "CAddr"@,
        }
    }

    /// The name of this operand.
    pub fn name(&self) -> (r: &'static str)
        ensures
            r@ == self.name_spec(),
    {
        match self {
            LoadAccumulatorTarget::PCAddr => "PCAddr",
            LoadAccumulatorTarget::A => "A",
            LoadAccumulatorTarget::CAddr => "CAddr",
        }
    }
}

impl LoadAccumulatorSource {
    /// The name of this operand.
    pub open spec fn name_spec(self) -> Seq<char> {
        match self {
            LoadAccumulatorSource::A => "A"@,
            LoadAccumulatorSource::PCAddr => "PCAddr"@,
            LoadAccumulatorSource::CAddr => "CAddr"@,
        }
    }

    /// The name of this operand.
    pub fn name(&self) -> (r: &'static str)
        ensures
            r@ == self.name_spec(),
    {
        match self {
            LoadAccumulatorSource::A => "A",
            LoadAccumulatorSource::PCAddr => "PCAddr",
            LoadAccumulatorSource::CAddr => "CAddr",
        }
    }
}

impl BitwiseSource {
    /// The name of this operand.
    pub open spec fn name_spec(self) -> Seq<char> {
        match self {
            BitwiseSource::B => "B"@,
            BitwiseSource::C => "C"@,
            BitwiseSource::D => "D"@,
            BitwiseSource::E => "E"@,
            BitwiseSource::H => "H"@,
            BitwiseSource::L => "L"@,
            BitwiseSource::HLAddr => "HLAddr"@,
            BitwiseSource::A => "A"@,
        }
    }

    /// The name of this operand.
    pub fn name(&self) -> (r: &'static str)
        ensures
            r@ == self.name_spec(),
    {
        match self {
            BitwiseSource::B => "B",
            BitwiseSource::C => "C",
            BitwiseSource::D => "D",
            BitwiseSource::E => "E",
            BitwiseSource::H => "H",
            BitwiseSource::L => "L",
            BitwiseSource::HLAddr => "HLAddr",
            BitwiseSource::A => "A",
        }
    }
}

/// State of the processor between steps.
#[derive(Debug, Clone, Copy, PartialEq, Eq, Structural)]
pub enum CpuStatus {
    Running,
    Halted,
    Stopped,
    Errored,
}

/// The five interrupt sources, in priority order.
#[derive(Debug, Clone, Copy, PartialEq, Eq, Structural)]
pub enum Interrupt {
    VBlank,
    LCD,
    Timer,
    Serial,
    Joypad,
}

impl Interrupt {
    /// Bit of this source in the interrupt-enable and interrupt-flag registers.
    pub open spec fn mask_spec(self) -> u8 {
        match self {
            Interrupt::VBlank => 0x01,
            Interrupt::LCD => 0x02,
            Interrupt::Timer => 0x04,
            Interrupt::Serial => 0x08,
            Interrupt::Joypad => 0x10,
        }
    }

    /// Address the processor jumps to when it services this source.
    pub open spec fn vector_spec(self) -> u16 {
        match self {
            Interrupt::VBlank => 0x40,
            Interrupt::LCD => 0x48,
            Interrupt::Timer => 0x50,
            Interrupt::Serial => 0x58,
            Interrupt::Joypad => 0x60,
        }
    }

    /// Bit of this source in the interrupt-enable and interrupt-flag registers.
    pub fn mask(self) -> (r: u8)
        ensures
            r == self.mask_spec(),
    {
        match self {
            Interrupt::VBlank => 0x01,
            Interrupt::LCD => 0x02,
            Interrupt::Timer => 0x04,
            Interrupt::Serial => 0x08,
            Interrupt::Joypad => 0x10,
        }
    }

    /// Address the processor jumps to when it services this source.
    pub fn vector(self) -> (r: u16)
        ensures
            r == self.vector_spec(),
    {
        match self {
            Interrupt::VBlank => 0x40,
            Interrupt::LCD => 0x48,
            Interrupt::Timer => 0x50,
            Interrupt::Serial => 0x58,
            Interrupt::Joypad => 0x60,
        }
    }
}

/// The four condition flags held in the upper nibble of F.
#[derive(Debug, Clone, Copy, PartialEq, Eq, Structural)]
pub enum Flag {
    Z,
    N,
    H,
    C,
}

impl Flag {
    /// Bit of this flag in the F register.
    pub open spec fn mask_spec(self) -> u8 {
        match self {
            Flag::Z => 0x80,
            Flag::N => 0x40,
            Flag::H => 0x20,
            Flag::C => 0x10,
        }
    }

    /// Bit of this flag in the F register.
    pub fn mask(self) -> (r: u8)
        ensures
            r == self.mask_spec(),
    {
        match self {
            Flag::Z => 0x80,
            Flag::N => 0x40,
            Flag::H => 0x20,
            Flag::C => 0x10,
        }
    }
}

/// One decoded instruction.
///
/// The accumulator rotates of the primary table are kept apart from the
/// prefixed rotates because they treat the zero flag differently.
#[derive(Debug, Clone, Copy, PartialEq, Eq, Structural)]
pub enum Instruction {
    Nop,
    Stop,
    Halt,
    DisableInterrupts,
    EnableInterrupts,
    Add(AddTarget, AddSource),
    AddCarry(AddCarrySource),
    Subtract(SubtractSource),
    SubtractCarry(SubtractCarrySource),
    And(AndSource),
    Or(OrSource),
    XOr(XOrSource),
    Load(LoadTarget, LoadSource),
    LoadAccumulator(LoadAccumulatorTarget, LoadAccumulatorSource),
    Increment(IncrementTarget),
    Decrement(DecrementTarget),
    RotateLeftCircular(BitwiseSource),
    RotateLeft(BitwiseSource),
    DecimalAdjustAccumulator,
    SetCarryFlag,
    JumpRelative(JumpCondition),
    Compare(CompareSource),
    RotateRightCircular(BitwiseSource),
    RotateRight(BitwiseSource),
    ShiftRightArithmetic(BitwiseSource),
    ShiftRightLogical(BitwiseSource),
    ShiftLeftArithmetic(BitwiseSource),
    Swap(BitwiseSource),
    Bit(u8, BitwiseSource),
    ComplementAccumulator,
    ComplementCarryFlag,
    Return(JumpCondition),
    ReturnInterrupt,
    Jump(JumpCondition),
    JumpHL,
    Pop(PopTarget),
    Push(PushTarget),
    Call(JumpCondition),
    Restart(u16),
    CB,
    RotateLeftCircularAccumulator,
    RotateLeftAccumulator,
    RotateRightCircularAccumulator,
    RotateRightAccumulator,
    SetBit(u8, BitwiseSource),
    ResetBit(u8, BitwiseSource),
    Illegal(u8),
}

/// Operand named by a three-bit register field: B, C, D, E, H, L, the byte at HL, A.
pub open spec fn register_operand(i: int) -> BitwiseSource {
    if i == 0 {
        BitwiseSource::B
    } else if i == 1 {
        BitwiseSource::C
    } else if i == 2 {
        BitwiseSource::D
    } else if i == 3 {
        BitwiseSource::E
    } else if i == 4 {
        BitwiseSource::H
    } else if i == 5 {
        BitwiseSource::L
    } else if i == 6 {
        BitwiseSource::HLAddr
    } else {
        BitwiseSource::A
    }
}

/// Load destination named by a three-bit register field.
pub open spec fn load_target_r(i: int) -> LoadTarget {
    if i == 0 {
        LoadTarget::B
    } else if i == 1 {
        LoadTarget::C
    } else if i == 2 {
        LoadTarget::D
    } else if i == 3 {
        LoadTarget::E
    } else if i == 4 {
        LoadTarget::H
    } else if i == 5 {
        LoadTarget::L
    } else if i == 6 {
        LoadTarget::HLAddr
    } else {
        LoadTarget::A
    }
}

/// Load source named by a three-bit register field.
pub open spec fn load_source_r(i: int) -> LoadSource {
    if i == 0 {
        LoadSource::B
    } else if i == 1 {
        LoadSource::C
    } else if i == 2 {
        LoadSource::D
    } else if i == 3 {
        LoadSource::E
    } else if i == 4 {
        LoadSource::H
    } else if i == 5 {
        LoadSource::L
    } else if i == 6 {
        LoadSource::HLAddr
    } else {
        LoadSource::A
    }
}

/// INC operand named by a three-bit register field.
pub open spec fn increment_r(i: int) -> IncrementTarget {
    if i == 0 {
        IncrementTarget::B
    } else if i == 1 {
        IncrementTarget::C
    } else if i == 2 {
        IncrementTarget::D
    } else if i == 3 {
        IncrementTarget::E
    } else if i == 4 {
        IncrementTarget::H
    } else if i == 5 {
        IncrementTarget::L
    } else if i == 6 {
        IncrementTarget::HLAddr
    } else {
        IncrementTarget::A
    }
}

/// DEC operand named by a three-bit register field.
pub open spec fn decrement_r(i: int) -> DecrementTarget {
    if i == 0 {
        DecrementTarget::B
    } else if i == 1 {
        DecrementTarget::C
    } else if i == 2 {
        DecrementTarget::D
    } else if i == 3 {
        DecrementTarget::E
    } else if i == 4 {
        DecrementTarget::H
    } else if i == 5 {
        DecrementTarget::L
    } else if i == 6 {
        DecrementTarget::HLAddr
    } else {
        DecrementTarget::A
    }
}

/// ADD source named by a three-bit register field.
pub open spec fn add_r(i: int) -> AddSource {
    if i == 0 {
        AddSource::B
    } else if i == 1 {
        AddSource::C
    } else if i == 2 {
        AddSource::D
    } else if i == 3 {
        AddSource::E
    } else if i == 4 {
        AddSource::H
    } else if i == 5 {
        AddSource::L
    } else if i == 6 {
        AddSource::HLAddr
    } else {
        AddSource::A
    }
}

/// ADC source named by a three-bit register field.
pub open spec fn add_carry_r(i: int) -> AddCarrySource {
    if i == 0 {
        AddCarrySource::B
    } else if i == 1 {
        AddCarrySource::C
    } else if i == 2 {
        AddCarrySource::D
    } else if i == 3 {
        AddCarrySource::E
    } else if i == 4 {
        AddCarrySource::H
    } else if i == 5 {
        AddCarrySource::L
    } else if i == 6 {
        AddCarrySource::HLAddr
    } else {
        AddCarrySource::A
    }
}

/// SUB source named by a three-bit register field.
pub open spec fn subtract_r(i: int) -> SubtractSource {
    if i == 0 {
        SubtractSource::B
    } else if i == 1 {
        SubtractSource::C
    } else if i == 2 {
        SubtractSource::D
    } else if i == 3 {
        SubtractSource::E
    } else if i == 4 {
        SubtractSource::H
    } else if i == 5 {
        SubtractSource::L
    } else if i == 6 {
        SubtractSource::HLAddr
    } else {
        SubtractSource::A
    }
}

/// SBC source named by a three-bit register field.
pub open spec fn subtract_carry_r(i: int) -> SubtractCarrySource {
    if i == 0 {
        SubtractCarrySource::B
    } else if i == 1 {
        SubtractCarrySource::C
    } else if i == 2 {
        SubtractCarrySource::D
    } else if i == 3 {
        SubtractCarrySource::E
    } else if i == 4 {
        SubtractCarrySource::H
    } else if i == 5 {
        SubtractCarrySource::L
    } else if i == 6 {
        SubtractCarrySource::HLAddr
    } else {
        SubtractCarrySource::A
    }
}

/// AND source named by a three-bit register field.
pub open spec fn and_r(i: int) -> AndSource {
    if i == 0 {
        AndSource::B
    } else if i == 1 {
        AndSource::C
    } else if i == 2 {
        AndSource::D
    } else if i == 3 {
        AndSource::E
    } else if i == 4 {
        AndSource::H
    } else if i == 5 {
        AndSource::L
    } else if i == 6 {
        AndSource::HLAddr
    } else {
        AndSource::A
    }
}

/// XOR source named by a three-bit register field.
pub open spec fn xor_r(i: int) -> XOrSource {
    if i == 0 {
        XOrSource::B
    } else if i == 1 {
        XOrSource::C
    } else if i == 2 {
        XOrSource::D
    } else if i == 3 {
        XOrSource::E
    } else if i == 4 {
        XOrSource::H
    } else if i == 5 {
        XOrSource::L
    } else if i == 6 {
        XOrSource::HLAddr
    } else {
        XOrSource::A
    }
}

/// OR source named by a three-bit register field.
pub open spec fn or_r(i: int) -> OrSource {
    if i == 0 {
        OrSource::B
    } else if i == 1 {
        OrSource::C
    } else if i == 2 {
        OrSource::D
    } else if i == 3 {
        OrSource::E
    } else if i == 4 {
        OrSource::H
    } else if i == 5 {
        OrSource::L
    } else if i == 6 {
        OrSource::HLAddr
    } else {
        OrSource::A
    }
}

/// CP source named by a three-bit register field.
pub open spec fn compare_r(i: int) -> CompareSource {
    if i == 0 {
        CompareSource::B
    } else if i == 1 {
        CompareSource::C
    } else if i == 2 {
        CompareSource::D
    } else if i == 3 {
        CompareSource::E
    } else if i == 4 {
        CompareSource::H
    } else if i == 5 {
        CompareSource::L
    } else if i == 6 {
        CompareSource::HLAddr
    } else {
        CompareSource::A
    }
}

/// Load destination named by a two-bit pair field: BC, DE, HL, SP.
pub open spec fn load_target_rp(i: int) -> LoadTarget {
    if i == 0 {
        LoadTarget::BC
    } else if i == 1 {
        LoadTarget::DE
    } else if i == 2 {
        LoadTarget::HL
    } else {
        LoadTarget::SP
    }
}

/// ADD HL source named by a two-bit pair field.
pub open spec fn add_rp(i: int) -> AddSource {
    if i == 0 {
        AddSource::BC
    } else if i == 1 {
        AddSource::DE
    } else if i == 2 {
        AddSource::HL
    } else {
        AddSource::SP
    }
}

/// INC operand named by a two-bit pair field.
pub open spec fn increment_rp(i: int) -> IncrementTarget {
    if i == 0 {
        IncrementTarget::BC
    } else if i == 1 {
        IncrementTarget::DE
    } else if i == 2 {
        IncrementTarget::HL
    } else {
        IncrementTarget::SP
    }
}

/// DEC operand named by a two-bit pair field.
pub open spec fn decrement_rp(i: int) -> DecrementTarget {
    if i == 0 {
        DecrementTarget::BC
    } else if i == 1 {
        DecrementTarget::DE
    } else if i == 2 {
        DecrementTarget::HL
    } else {
        DecrementTarget::SP
    }
}

/// POP operand named by a two-bit pair field: BC, DE, HL, AF.
pub open spec fn pop_rp(i: int) -> PopTarget {
    if i == 0 {
        PopTarget::BC
    } else if i == 1 {
        PopTarget::DE
    } else if i == 2 {
        PopTarget::HL
    } else {
        PopTarget::AF
    }
}

/// PUSH operand named by a two-bit pair field: BC, DE, HL, AF.
pub open spec fn push_rp(i: int) -> PushTarget {
    if i == 0 {
        PushTarget::BC
    } else if i == 1 {
        PushTarget::DE
    } else if i == 2 {
        PushTarget::HL
    } else {
        PushTarget::AF
    }
}

/// Condition named by a two-bit field: NZ, Z, NC, C.
pub open spec fn condition(i: int) -> JumpCondition {
    if i == 0 {
        JumpCondition::NZ
    } else if i == 1 {
        JumpCondition::Z
    } else if i == 2 {
        JumpCondition::NC
    } else {
        JumpCondition::C
    }
}

/// The arithmetic instruction selected by field `y`, on the source named by
/// register field `z`.
pub open spec fn alu_register(y: int, z: int) -> Instruction {
    if y == 0 {
        Instruction::Add(AddTarget::A, add_r(z))
    } else if y == 1 {
        Instruction::AddCarry(add_carry_r(z))
    } else if y == 2 {
        Instruction::Subtract(subtract_r(z))
    } else if y == 3 {
        Instruction::SubtractCarry(subtract_carry_r(z))
    } else if y == 4 {
        Instruction::And(and_r(z))
    } else if y == 5 {
        Instruction::XOr(xor_r(z))
    } else if y == 6 {
        Instruction::Or(or_r(z))
    } else {
        Instruction::Compare(compare_r(z))
    }
}

/// The arithmetic instruction selected by field `y`, on the byte that follows
/// the opcode.
pub open spec fn alu_immediate(y: int) -> Instruction {
    if y == 0 {
        Instruction::Add(AddTarget::A, AddSource::PC)
    } else if y == 1 {
        Instruction::AddCarry(AddCarrySource::PC)
    } else if y == 2 {
        Instruction::Subtract(SubtractSource::PC)
    } else if y == 3 {
        Instruction::SubtractCarry(SubtractCarrySource::PC)
    } else if y == 4 {
        Instruction::And(AndSource::PC)
    } else if y == 5 {
        Instruction::XOr(XOrSource::PC)
    } else if y == 6 {
        Instruction::Or(OrSource::PC)
    } else {
        Instruction::Compare(CompareSource::PC)
    }
}

/// Opcodes 0x00..=0x3F, by their fields `y` (bits 5..3) and `z` (bits 2..0).
pub open spec fn decode_low(y: int, z: int) -> (Instruction, u8) {
    let p = y / 2;
    let q = y % 2;
    if z == 0 {
        if y == 0 {
            (Instruction::Nop, 1u8)
        } else if y == 1 {
            (Instruction::Load(LoadTarget::PC16Addr, LoadSource::SP), 5u8)
        } else if y == 2 {
            (Instruction::Stop, 1u8)
        } else if y == 3 {
            (Instruction::JumpRelative(JumpCondition::Always), 3u8)
        } else {
            (Instruction::JumpRelative(condition(y - 4)), 2u8)
        }
    } else if z == 1 {
        if q == 0 {
            (Instruction::Load(load_target_rp(p), LoadSource::PC16), 3u8)
        } else {
            (Instruction::Add(AddTarget::HL, add_rp(p)), 2u8)
        }
    } else if z == 2 {
        if q == 0 {
            (
                Instruction::Load(
                    if p == 0 {
                        LoadTarget::BCAddr
                    } else if p == 1 {
                        LoadTarget::DEAddr
                    } else if p == 2 {
                        LoadTarget::HLAddrInc
                    } else {
                        LoadTarget::HLAddrDec
                    },
                    LoadSource::A,
                ),
                2u8,
            )
        } else {
            (
                Instruction::Load(
                    LoadTarget::A,
                    if p == 0 {
                        LoadSource::BCAddr
                    } else if p == 1 {
                        LoadSource::DEAddr
                    } else if p == 2 {
                        LoadSource::HLAddrInc
                    } else {
                        LoadSource::HLAddrDec
                    },
                ),
                2u8,
            )
        }
    } else if z == 3 {
        if q == 0 {
            (Instruction::Increment(increment_rp(p)), 2u8)
        } else {
            (Instruction::Decrement(decrement_rp(p)), 2u8)
        }
    } else if z == 4 {
        (Instruction::Increment(increment_r(y)), if y == 6 { 3u8 } else { 1u8 })
    } else if z == 5 {
        (Instruction::Decrement(decrement_r(y)), if y == 6 { 3u8 } else { 1u8 })
    } else if z == 6 {
        (Instruction::Load(load_target_r(y), LoadSource::PC), if y == 6 { 3u8 } else { 2u8 })
    } else {
        (
            if y == 0 {
                Instruction::RotateLeftCircularAccumulator
            } else if y == 1 {
                Instruction::RotateRightCircularAccumulator
            } else if y == 2 {
                Instruction::RotateLeftAccumulator
            } else if y == 3 {
                Instruction::RotateRightAccumulator
            } else if y == 4 {
                Instruction::DecimalAdjustAccumulator
            } else if y == 5 {
                Instruction::ComplementAccumulator
            } else if y == 6 {
                Instruction::SetCarryFlag
            } else {
                Instruction::ComplementCarryFlag
            },
            1u8,
        )
    }
}

/// Opcodes 0xC0..=0xFF, by their fields `y` (bits 5..3) and `z` (bits 2..0).
pub open spec fn decode_high(op: u8, y: int, z: int) -> (Instruction, u8) {
    let p = y / 2;
    let q = y % 2;
    if z == 0 {
        if y < 4 {
            (Instruction::Return(condition(y)), 2u8)
        } else if y == 4 {
            (
                Instruction::LoadAccumulator(
                    LoadAccumulatorTarget::PCAddr,
                    LoadAccumulatorSource::A,
                ),
                3u8,
            )
        } else if y == 5 {
            (Instruction::Add(AddTarget::SP, AddSource::PCe), 4u8)
        } else if y == 6 {
            (
                Instruction::LoadAccumulator(
                    LoadAccumulatorTarget::A,
                    LoadAccumulatorSource::PCAddr,
                ),
                3u8,
            )
        } else {
            (Instruction::Load(LoadTarget::HL, LoadSource::SPE), 3u8)
        }
    } else if z == 1 {
        if q == 0 {
            (Instruction::Pop(pop_rp(p)), 3u8)
        } else if p == 0 {
            (Instruction::Return(JumpCondition::Always), 4u8)
        } else if p == 1 {
            (Instruction::ReturnInterrupt, 4u8)
        } else if p == 2 {
            (Instruction::JumpHL, 1u8)
        } else {
            (Instruction::Load(LoadTarget::SP, LoadSource::HL), 2u8)
        }
    } else if z == 2 {
        if y < 4 {
            (Instruction::Jump(condition(y)), 3u8)
        } else if y == 4 {
            (
                Instruction::LoadAccumulator(
                    LoadAccumulatorTarget::CAddr,
                    LoadAccumulatorSource::A,
                ),
                2u8,
            )
        } else if y == 5 {
            (Instruction::Load(LoadTarget::PCAddr, LoadSource::A), 4u8)
        } else if y == 6 {
            (
                Instruction::LoadAccumulator(
                    LoadAccumulatorTarget::A,
                    LoadAccumulatorSource::CAddr,
                ),
                2u8,
            )
        } else {
            (Instruction::Load(LoadTarget::A, LoadSource::PCAddr), 4u8)
        }
    } else if z == 3 {
        if y == 0 {
            (Instruction::Jump(JumpCondition::Always), 4u8)
        } else if y == 1 {
            (Instruction::CB, 1u8)
        } else if y == 6 {
            (Instruction::DisableInterrupts, 1u8)
        } else if y == 7 {
            (Instruction::EnableInterrupts, 1u8)
        } else {
            (Instruction::Illegal(op), 1u8)
        }
    } else if z == 4 {
        if y < 4 {
            (Instruction::Call(condition(y)), 3u8)
        } else {
            (Instruction::Illegal(op), 1u8)
        }
    } else if z == 5 {
        if q == 0 {
            (Instruction::Push(push_rp(p)), 4u8)
        } else if p == 0 {
            (Instruction::Call(JumpCondition::Always), 6u8)
        } else {
            (Instruction::Illegal(op), 1u8)
        }
    } else if z == 6 {
        (alu_immediate(y), 2u8)
    } else {
        (Instruction::Restart((y * 8) as u16), 4u8)
    }
}

/// The instruction a primary opcode stands for, with its cost in machine
/// cycles.
///
/// The opcode is read as the fields `x` (bits 7..6), `y` (bits 5..3) and `z`
/// (bits 2..0). For a conditional jump, call or return the cost is that of
/// the branch not taken; for the 0xCB prefix it is that of the prefix byte
/// alone. The eleven unassigned opcodes decode to `Illegal`.
pub open spec fn decode(op: u8) -> (Instruction, u8) {
    let x = op as int / 64;
    let y = (op as int / 8) % 8;
    let z = op as int % 8;
    if x == 0 {
        decode_low(y, z)
    } else if x == 1 {
        if y == 6 && z == 6 {
            (Instruction::Halt, 1u8)
        } else {
            (
                Instruction::Load(load_target_r(y), load_source_r(z)),
                if y == 6 || z == 6 { 2u8 } else { 1u8 },
            )
        }
    } else if x == 2 {
        (alu_register(y, z), if z == 6 { 2u8 } else { 1u8 })
    } else {
        decode_high(op, y, z)
    }
}

/// The instruction a 0xCB-prefixed opcode stands for, with the machine cycles
/// it takes after the prefix byte.
pub open spec fn decode_cb(op: u8) -> (Instruction, u8) {
    let x = op as int / 64;
    let y = (op as int / 8) % 8;
    let z = op as int % 8;
    let source = register_operand(z);
    let plain: u8 = if z == 6 { 3u8 } else { 1u8 };
    if x == 0 {
        (
            if y == 0 {
                Instruction::RotateLeftCircular(source)
            } else if y == 1 {
                Instruction::RotateRightCircular(source)
            } else if y == 2 {
                Instruction::RotateLeft(source)
            } else if y == 3 {
                Instruction::RotateRight(source)
            } else if y == 4 {
                Instruction::ShiftLeftArithmetic(source)
            } else if y == 5 {
                Instruction::ShiftRightArithmetic(source)
            } else if y == 6 {
                Instruction::Swap(source)
            } else {
                Instruction::ShiftRightLogical(source)
            },
            plain,
        )
    } else if x == 1 {
        (Instruction::Bit(y as u8, source), if z == 6 { 2u8 } else { 1u8 })
    } else if x == 2 {
        (Instruction::ResetBit(y as u8, source), plain)
    } else {
        (Instruction::SetBit(y as u8, source), plain)
    }
}

/// Whether a primary opcode is one of the eleven the hardware leaves
/// unassigned.
pub open spec fn is_unassigned(op: u8) -> bool {
    op == 0xD3 || op == 0xDB || op == 0xDD || op == 0xE3 || op == 0xE4 || op == 0xEB || op == 0xEC
        || op == 0xED || op == 0xF4 || op == 0xFC || op == 0xFD
}

/// Table for opcodes 0x00..=0x3F: loads, 16-bit arithmetic, relative jumps and flag operations.
fn primary_00_3f(op: u8) -> (r: (Instruction, u8))
    requires
        0x00 <= op <= 0x3F,
    ensures
        r == decode(op),
{
    match op {
        0x00 => (Instruction::Nop, 1),
        0x01 => (Instruction::Load(LoadTarget::BC, LoadSource::PC16), 3),
        0x02 => (Instruction::Load(LoadTarget::BCAddr, LoadSource::A), 2),
        0x03 => (Instruction::Increment(IncrementTarget::BC), 2),
        0x04 => (Instruction::Increment(IncrementTarget::B), 1),
        0x05 => (Instruction::Decrement(DecrementTarget::B), 1),
        0x06 => (Instruction::Load(LoadTarget::B, LoadSource::PC), 2),
        0x07 => (Instruction::RotateLeftCircularAccumulator, 1),
        0x08 => (Instruction::Load(LoadTarget::PC16Addr, LoadSource::SP), 5),
        0x09 => (Instruction::Add(AddTarget::HL, AddSource::BC), 2),
        0x0A => (Instruction::Load(LoadTarget::A, LoadSource::BCAddr), 2),
        0x0B => (Instruction::Decrement(DecrementTarget::BC), 2),
        0x0C => (Instruction::Increment(IncrementTarget::C), 1),
        0x0D => (Instruction::Decrement(DecrementTarget::C), 1),
        0x0E => (Instruction::Load(LoadTarget::C, LoadSource::PC), 2),
        0x0F => (Instruction::RotateRightCircularAccumulator, 1),
        0x10 => (Instruction::Stop, 1),
        0x11 => (Instruction::Load(LoadTarget::DE, LoadSource::PC16), 3),
        0x12 => (Instruction::Load(LoadTarget::DEAddr, LoadSource::A), 2),
        0x13 => (Instruction::Increment(IncrementTarget::DE), 2),
        0x14 => (Instruction::Increment(IncrementTarget::D), 1),
        0x15 => (Instruction::Decrement(DecrementTarget::D), 1),
        0x16 => (Instruction::Load(LoadTarget::D, LoadSource::PC), 2),
        0x17 => (Instruction::RotateLeftAccumulator, 1),
        0x18 => (Instruction::JumpRelative(JumpCondition::Always), 3),
        0x19 => (Instruction::Add(AddTarget::HL, AddSource::DE), 2),
        0x1A => (Instruction::Load(LoadTarget::A, LoadSource::DEAddr), 2),
        0x1B => (Instruction::Decrement(DecrementTarget::DE), 2),
        0x1C => (Instruction::Increment(IncrementTarget::E), 1),
        0x1D => (Instruction::Decrement(DecrementTarget::E), 1),
        0x1E => (Instruction::Load(LoadTarget::E, LoadSource::PC), 2),
        0x1F => (Instruction::RotateRightAccumulator, 1),
        0x20 => (Instruction::JumpRelative(JumpCondition::NZ), 2),
        0x21 => (Instruction::Load(LoadTarget::HL, LoadSource::PC16), 3),
        0x22 => (Instruction::Load(LoadTarget::HLAddrInc, LoadSource::A), 2),
        0x23 => (Instruction::Increment(IncrementTarget::HL), 2),
        0x24 => (Instruction::Increment(IncrementTarget::H), 1),
        0x25 => (Instruction::Decrement(DecrementTarget::H), 1),
        0x26 => (Instruction::Load(LoadTarget::H, LoadSource::PC), 2),
        0x27 => (Instruction::DecimalAdjustAccumulator, 1),
        0x28 => (Instruction::JumpRelative(JumpCondition::Z), 2),
        0x29 => (Instruction::Add(AddTarget::HL, AddSource::HL), 2),
        0x2A => (Instruction::Load(LoadTarget::A, LoadSource::HLAddrInc), 2),
        0x2B => (Instruction::Decrement(DecrementTarget::HL), 2),
        0x2C => (Instruction::Increment(IncrementTarget::L), 1),
        0x2D => (Instruction::Decrement(DecrementTarget::L), 1),
        0x2E => (Instruction::Load(LoadTarget::L, LoadSource::PC), 2),
        0x2F => (Instruction::ComplementAccumulator, 1),
        0x30 => (Instruction::JumpRelative(JumpCondition::NC), 2),
        0x31 => (Instruction::Load(LoadTarget::SP, LoadSource::PC16), 3),
        0x32 => (Instruction::Load(LoadTarget::HLAddrDec, LoadSource::A), 2),
        0x33 => (Instruction::Increment(IncrementTarget::SP), 2),
        0x34 => (Instruction::Increment(IncrementTarget::HLAddr), 3),
        0x35 => (Instruction::Decrement(DecrementTarget::HLAddr), 3),
        0x36 => (Instruction::Load(LoadTarget::HLAddr, LoadSource::PC), 3),
        0x37 => (Instruction::SetCarryFlag, 1),
        0x38 => (Instruction::JumpRelative(JumpCondition::C), 2),
        0x39 => (Instruction::Add(AddTarget::HL, AddSource::SP), 2),
        0x3A => (Instruction::Load(LoadTarget::A, LoadSource::HLAddrDec), 2),
        0x3B => (Instruction::Decrement(DecrementTarget::SP), 2),
        0x3C => (Instruction::Increment(IncrementTarget::A), 1),
        0x3D => (Instruction::Decrement(DecrementTarget::A), 1),
        0x3E => (Instruction::Load(LoadTarget::A, LoadSource::PC), 2),
        _ => (Instruction::ComplementCarryFlag, 1),
    }
}

/// Table for opcodes 0x40..=0x7F: register-to-register loads and HALT.
fn primary_40_7f(op: u8) -> (r: (Instruction, u8))
    requires
        0x40 <= op <= 0x7F,
    ensures
        r == decode(op),
{
    match op {
        0x40 => (Instruction::Load(LoadTarget::B, LoadSource::B), 1),
        0x41 => (Instruction::Load(LoadTarget::B, LoadSource::C), 1),
        0x42 => (Instruction::Load(LoadTarget::B, LoadSource::D), 1),
        0x43 => (Instruction::Load(LoadTarget::B, LoadSource::E), 1),
        0x44 => (Instruction::Load(LoadTarget::B, LoadSource::H), 1),
        0x45 => (Instruction::Load(LoadTarget::B, LoadSource::L), 1),
        0x46 => (Instruction::Load(LoadTarget::B, LoadSource::HLAddr), 2),
        0x47 => (Instruction::Load(LoadTarget::B, LoadSource::A), 1),
        0x48 => (Instruction::Load(LoadTarget::C, LoadSource::B), 1),
        0x49 => (Instruction::Load(LoadTarget::C, LoadSource::C), 1),
        0x4A => (Instruction::Load(LoadTarget::C, LoadSource::D), 1),
        0x4B => (Instruction::Load(LoadTarget::C, LoadSource::E), 1),
        0x4C => (Instruction::Load(LoadTarget::C, LoadSource::H), 1),
        0x4D => (Instruction::Load(LoadTarget::C, LoadSource::L), 1),
        0x4E => (Instruction::Load(LoadTarget::C, LoadSource::HLAddr), 2),
        0x4F => (Instruction::Load(LoadTarget::C, LoadSource::A), 1),
        0x50 => (Instruction::Load(LoadTarget::D, LoadSource::B), 1),
        0x51 => (Instruction::Load(LoadTarget::D, LoadSource::C), 1),
        0x52 => (Instruction::Load(LoadTarget::D, LoadSource::D), 1),
        0x53 => (Instruction::Load(LoadTarget::D, LoadSource::E), 1),
        0x54 => (Instruction::Load(LoadTarget::D, LoadSource::H), 1),
        0x55 => (Instruction::Load(LoadTarget::D, LoadSource::L), 1),
        0x56 => (Instruction::Load(LoadTarget::D, LoadSource::HLAddr), 2),
        0x57 => (Instruction::Load(LoadTarget::D, LoadSource::A), 1),
        0x58 => (Instruction::Load(LoadTarget::E, LoadSource::B), 1),
        0x59 => (Instruction::Load(LoadTarget::E, LoadSource::C), 1),
        0x5A => (Instruction::Load(LoadTarget::E, LoadSource::D), 1),
        0x5B => (Instruction::Load(LoadTarget::E, LoadSource::E), 1),
        0x5C => (Instruction::Load(LoadTarget::E, LoadSource::H), 1),
        0x5D => (Instruction::Load(LoadTarget::E, LoadSource::L), 1),
        0x5E => (Instruction::Load(LoadTarget::E, LoadSource::HLAddr), 2),
        0x5F => (Instruction::Load(LoadTarget::E, LoadSource::A), 1),
        0x60 => (Instruction::Load(LoadTarget::H, LoadSource::B), 1),
        0x61 => (Instruction::Load(LoadTarget::H, LoadSource::C), 1),
        0x62 => (Instruction::Load(LoadTarget::H, LoadSource::D), 1),
        0x63 => (Instruction::Load(LoadTarget::H, LoadSource::E), 1),
        0x64 => (Instruction::Load(LoadTarget::H, LoadSource::H), 1),
        0x65 => (Instruction::Load(LoadTarget::H, LoadSource::L), 1),
        0x66 => (Instruction::Load(LoadTarget::H, LoadSource::HLAddr), 2),
        0x67 => (Instruction::Load(LoadTarget::H, LoadSource::A), 1),
        0x68 => (Instruction::Load(LoadTarget::L, LoadSource::B), 1),
        0x69 => (Instruction::Load(LoadTarget::L, LoadSource::C), 1),
        0x6A => (Instruction::Load(LoadTarget::L, LoadSource::D), 1),
        0x6B => (Instruction::Load(LoadTarget::L, LoadSource::E), 1),
        0x6C => (Instruction::Load(LoadTarget::L, LoadSource::H), 1),
        0x6D => (Instruction::Load(LoadTarget::L, LoadSource::L), 1),
        0x6E => (Instruction::Load(LoadTarget::L, LoadSource::HLAddr), 2),
        0x6F => (Instruction::Load(LoadTarget::L, LoadSource::A), 1),
        0x70 => (Instruction::Load(LoadTarget::HLAddr, LoadSource::B), 2),
        0x71 => (Instruction::Load(LoadTarget::HLAddr, LoadSource::C), 2),
        0x72 => (Instruction::Load(LoadTarget::HLAddr, LoadSource::D), 2),
        0x73 => (Instruction::Load(LoadTarget::HLAddr, LoadSource::E), 2),
        0x74 => (Instruction::Load(LoadTarget::HLAddr, LoadSource::H), 2),
        0x75 => (Instruction::Load(LoadTarget::HLAddr, LoadSource::L), 2),
        0x76 => (Instruction::Halt, 1),
        0x77 => (Instruction::Load(LoadTarget::HLAddr, LoadSource::A), 2),
        0x78 => (Instruction::Load(LoadTarget::A, LoadSource::B), 1),
        0x79 => (Instruction::Load(LoadTarget::A, LoadSource::C), 1),
        0x7A => (Instruction::Load(LoadTarget::A, LoadSource::D), 1),
        0x7B => (Instruction::Load(LoadTarget::A, LoadSource::E), 1),
        0x7C => (Instruction::Load(LoadTarget::A, LoadSource::H), 1),
        0x7D => (Instruction::Load(LoadTarget::A, LoadSource::L), 1),
        0x7E => (Instruction::Load(LoadTarget::A, LoadSource::HLAddr), 2),
        _ => (Instruction::Load(LoadTarget::A, LoadSource::A), 1),
    }
}

/// Table for opcodes 0x80..=0xBF: eight-bit arithmetic on a register operand.
fn primary_80_bf(op: u8) -> (r: (Instruction, u8))
    requires
        0x80 <= op <= 0xBF,
    ensures
        r == decode(op),
{
    match op {
        0x80 => (Instruction::Add(AddTarget::A, AddSource::B), 1),
        0x81 => (Instruction::Add(AddTarget::A, AddSource::C), 1),
        0x82 => (Instruction::Add(AddTarget::A, AddSource::D), 1),
        0x83 => (Instruction::Add(AddTarget::A, AddSource::E), 1),
        0x84 => (Instruction::Add(AddTarget::A, AddSource::H), 1),
        0x85 => (Instruction::Add(AddTarget::A, AddSource::L), 1),
        0x86 => (Instruction::Add(AddTarget::A, AddSource::HLAddr), 2),
        0x87 => (Instruction::Add(AddTarget::A, AddSource::A), 1),
        0x88 => (Instruction::AddCarry(AddCarrySource::B), 1),
        0x89 => (Instruction::AddCarry(AddCarrySource::C), 1),
        0x8A => (Instruction::AddCarry(AddCarrySource::D), 1),
        0x8B => (Instruction::AddCarry(AddCarrySource::E), 1),
        0x8C => (Instruction::AddCarry(AddCarrySource::H), 1),
        0x8D => (Instruction::AddCarry(AddCarrySource::L), 1),
        0x8E => (Instruction::AddCarry(AddCarrySource::HLAddr), 2),
        0x8F => (Instruction::AddCarry(AddCarrySource::A), 1),
        0x90 => (Instruction::Subtract(SubtractSource::B), 1),
        0x91 => (Instruction::Subtract(SubtractSource::C), 1),
        0x92 => (Instruction::Subtract(SubtractSource::D), 1),
        0x93 => (Instruction::Subtract(SubtractSource::E), 1),
        0x94 => (Instruction::Subtract(SubtractSource::H), 1),
        0x95 => (Instruction::Subtract(SubtractSource::L), 1),
        0x96 => (Instruction::Subtract(SubtractSource::HLAddr), 2),
        0x97 => (Instruction::Subtract(SubtractSource::A), 1),
        0x98 => (Instruction::SubtractCarry(SubtractCarrySource::B), 1),
        0x99 => (Instruction::SubtractCarry(SubtractCarrySource::C), 1),
        0x9A => (Instruction::SubtractCarry(SubtractCarrySource::D), 1),
        0x9B => (Instruction::SubtractCarry(SubtractCarrySource::E), 1),
        0x9C => (Instruction::SubtractCarry(SubtractCarrySource::H), 1),
        0x9D => (Instruction::SubtractCarry(SubtractCarrySource::L), 1),
        0x9E => (Instruction::SubtractCarry(SubtractCarrySource::HLAddr), 2),
        0x9F => (Instruction::SubtractCarry(SubtractCarrySource::A), 1),
        0xA0 => (Instruction::And(AndSource::B), 1),
        0xA1 => (Instruction::And(AndSource::C), 1),
        0xA2 => (Instruction::And(AndSource::D), 1),
        0xA3 => (Instruction::And(AndSource::E), 1),
        0xA4 => (Instruction::And(AndSource::H), 1),
        0xA5 => (Instruction::And(AndSource::L), 1),
        0xA6 => (Instruction::And(AndSource::HLAddr), 2),
        0xA7 => (Instruction::And(AndSource::A), 1),
        0xA8 => (Instruction::XOr(XOrSource::B), 1),
        0xA9 => (Instruction::XOr(XOrSource::C), 1),
        0xAA => (Instruction::XOr(XOrSource::D), 1),
        0xAB => (Instruction::XOr(XOrSource::E), 1),
        0xAC => (Instruction::XOr(XOrSource::H), 1),
        0xAD => (Instruction::XOr(XOrSource::L), 1),
        0xAE => (Instruction::XOr(XOrSource::HLAddr), 2),
        0xAF => (Instruction::XOr(XOrSource::A), 1),
        0xB0 => (Instruction::Or(OrSource::B), 1),
        0xB1 => (Instruction::Or(OrSource::C), 1),
        0xB2 => (Instruction::Or(OrSource::D), 1),
        0xB3 => (Instruction::Or(OrSource::E), 1),
        0xB4 => (Instruction::Or(OrSource::H), 1),
        0xB5 => (Instruction::Or(OrSource::L), 1),
        0xB6 => (Instruction::Or(OrSource::HLAddr), 2),
        0xB7 => (Instruction::Or(OrSource::A), 1),
        0xB8 => (Instruction::Compare(CompareSource::B), 1),
        0xB9 => (Instruction::Compare(CompareSource::C), 1),
        0xBA => (Instruction::Compare(CompareSource::D), 1),
        0xBB => (Instruction::Compare(CompareSource::E), 1),
        0xBC => (Instruction::Compare(CompareSource::H), 1),
        0xBD => (Instruction::Compare(CompareSource::L), 1),
        0xBE => (Instruction::Compare(CompareSource::HLAddr), 2),
        _ => (Instruction::Compare(CompareSource::A), 1),
    }
}

/// Table for opcodes 0xC0..=0xFF: control flow, stack, high-page loads and immediates.
fn primary_c0_ff(op: u8) -> (r: (Instruction, u8))
    requires
        0xC0 <= op <= 0xFF,
    ensures
        r == decode(op),
{
    match op {
        0xC0 => (Instruction::Return(JumpCondition::NZ), 2),
        0xC1 => (Instruction::Pop(PopTarget::BC), 3),
        0xC2 => (Instruction::Jump(JumpCondition::NZ), 3),
        0xC3 => (Instruction::Jump(JumpCondition::Always), 4),
        0xC4 => (Instruction::Call(JumpCondition::NZ), 3),
        0xC5 => (Instruction::Push(PushTarget::BC), 4),
        0xC6 => (Instruction::Add(AddTarget::A, AddSource::PC), 2),
        0xC7 => (Instruction::Restart(0x00), 4),
        0xC8 => (Instruction::Return(JumpCondition::Z), 2),
        0xC9 => (Instruction::Return(JumpCondition::Always), 4),
        0xCA => (Instruction::Jump(JumpCondition::Z), 3),
        0xCB => (Instruction::CB, 1),
        0xCC => (Instruction::Call(JumpCondition::Z), 3),
        0xCD => (Instruction::Call(JumpCondition::Always), 6),
        0xCE => (Instruction::AddCarry(AddCarrySource::PC), 2),
        0xCF => (Instruction::Restart(0x08), 4),
        0xD0 => (Instruction::Return(JumpCondition::NC), 2),
        0xD1 => (Instruction::Pop(PopTarget::DE), 3),
        0xD2 => (Instruction::Jump(JumpCondition::NC), 3),
        0xD3 => (Instruction::Illegal(0xD3), 1),
        0xD4 => (Instruction::Call(JumpCondition::NC), 3),
        0xD5 => (Instruction::Push(PushTarget::DE), 4),
        0xD6 => (Instruction::Subtract(SubtractSource::PC), 2),
        0xD7 => (Instruction::Restart(0x10), 4),
        0xD8 => (Instruction::Return(JumpCondition::C), 2),
        0xD9 => (Instruction::ReturnInterrupt, 4),
        0xDA => (Instruction::Jump(JumpCondition::C), 3),
        0xDB => (Instruction::Illegal(0xDB), 1),
        0xDC => (Instruction::Call(JumpCondition::C), 3),
        0xDD => (Instruction::Illegal(0xDD), 1),
        0xDE => (Instruction::SubtractCarry(SubtractCarrySource::PC), 2),
        0xDF => (Instruction::Restart(0x18), 4),
        0xE0 => (
            Instruction::LoadAccumulator(
                LoadAccumulatorTarget::PCAddr,
                LoadAccumulatorSource::A,
            ),
            3,
        ),
        0xE1 => (Instruction::Pop(PopTarget::HL), 3),
        0xE2 => (
            Instruction::LoadAccumulator(
                LoadAccumulatorTarget::CAddr,
                LoadAccumulatorSource::A,
            ),
            2,
        ),
        0xE3 => (Instruction::Illegal(0xE3), 1),
        0xE4 => (Instruction::Illegal(0xE4), 1),
        0xE5 => (Instruction::Push(PushTarget::HL), 4),
        0xE6 => (Instruction::And(AndSource::PC), 2),
        0xE7 => (Instruction::Restart(0x20), 4),
        0xE8 => (Instruction::Add(AddTarget::SP, AddSource::PCe), 4),
        0xE9 => (Instruction::JumpHL, 1),
        0xEA => (Instruction::Load(LoadTarget::PCAddr, LoadSource::A), 4),
        0xEB => (Instruction::Illegal(0xEB), 1),
        0xEC => (Instruction::Illegal(0xEC), 1),
        0xED => (Instruction::Illegal(0xED), 1),
        0xEE => (Instruction::XOr(XOrSource::PC), 2),
        0xEF => (Instruction::Restart(0x28), 4),
        0xF0 => (
            Instruction::LoadAccumulator(
                LoadAccumulatorTarget::A,
                LoadAccumulatorSource::PCAddr,
            ),
            3,
        ),
        0xF1 => (Instruction::Pop(PopTarget::AF), 3),
        0xF2 => (
            Instruction::LoadAccumulator(
                LoadAccumulatorTarget::A,
                LoadAccumulatorSource::CAddr,
            ),
            2,
        ),
        0xF3 => (Instruction::DisableInterrupts, 1),
        0xF4 => (Instruction::Illegal(0xF4), 1),
        0xF5 => (Instruction::Push(PushTarget::AF), 4),
        0xF6 => (Instruction::Or(OrSource::PC), 2),
        0xF7 => (Instruction::Restart(0x30), 4),
        0xF8 => (Instruction::Load(LoadTarget::HL, LoadSource::SPE), 3),
        0xF9 => (Instruction::Load(LoadTarget::SP, LoadSource::HL), 2),
        0xFA => (Instruction::Load(LoadTarget::A, LoadSource::PCAddr), 4),
        0xFB => (Instruction::EnableInterrupts, 1),
        0xFC => (Instruction::Illegal(0xFC), 1),
        0xFD => (Instruction::Illegal(0xFD), 1),
        0xFE => (Instruction::Compare(CompareSource::PC), 2),
        _ => (Instruction::Restart(0x38), 4),
    }
}

impl Instruction {
    /// Decodes a primary opcode into its instruction and its cost in machine
    /// cycles.
    pub fn get_instruction(byte: &u8) -> (r: (Instruction, u8))
        ensures
            r == decode(*byte),
            1 <= r.1 <= 6,
            r.0 is Illegal <==> is_unassigned(*byte),
    {
        let op: u8 = *byte;
        if op < 0x40 {
            primary_00_3f(op)
        } else if op < 0x80 {
            primary_40_7f(op)
        } else if op < 0xC0 {
            primary_80_bf(op)
        } else {
            primary_c0_ff(op)
        }
    }

    /// Decodes the byte after a 0xCB prefix into its instruction and the
    /// machine cycles it takes after the prefix.
    pub fn get_cb_instruction(byte: &u8) -> (r: (Instruction, u8))
        ensures
            r == decode_cb(*byte),
            1 <= r.1 <= 3,
    {
        let op: u8 = *byte;
        let source = match op % 8 {
            0 => BitwiseSource::B,
            1 => BitwiseSource::C,
            2 => BitwiseSource::D,
            3 => BitwiseSource::E,
            4 => BitwiseSource::H,
            5 => BitwiseSource::L,
            6 => BitwiseSource::HLAddr,
            _ => BitwiseSource::A,
        };
        let memory = op % 8 == 6;
        let cycles: u8 = if memory { 3 } else { 1 };
        let bit: u8 = (op / 8) % 8;
        match op {
            0x00..=0x07 => (Instruction::RotateLeftCircular(source), cycles),
            0x08..=0x0F => (Instruction::RotateRightCircular(source), cycles),
            0x10..=0x17 => (Instruction::RotateLeft(source), cycles),
            0x18..=0x1F => (Instruction::RotateRight(source), cycles),
            0x20..=0x27 => (Instruction::ShiftLeftArithmetic(source), cycles),
            0x28..=0x2F => (Instruction::ShiftRightArithmetic(source), cycles),
            0x30..=0x37 => (Instruction::Swap(source), cycles),
            0x38..=0x3F => (Instruction::ShiftRightLogical(source), cycles),
            0x40..=0x7F => (Instruction::Bit(bit, source), if memory { 2 } else { 1 }),
            0x80..=0xBF => (Instruction::ResetBit(bit, source), cycles),
            _ => (Instruction::SetBit(bit, source), cycles),
        }
    }
}


impl Instruction {
    /// The instruction in the words of an assembler listing.
    pub open spec fn mnemonic_spec(self) -> Seq<char> {
        match self {
            Instruction::Nop => "NOP"@,
            Instruction::Stop => "STOP"@,
            Instruction::Halt => "HALT"@,
            Instruction::DisableInterrupts => "DI"@,
            Instruction::EnableInterrupts => "EI"@,
            Instruction::DecimalAdjustAccumulator => "DAA"@,
            Instruction::SetCarryFlag => "SCF"@,
            Instruction::ComplementAccumulator => "CPL"@,
            Instruction::ComplementCarryFlag => "CCF"@,
            Instruction::ReturnInterrupt => "RETI"@,
            Instruction::JumpHL => "JP HL"@,
            Instruction::CB => "CB"@,
            Instruction::RotateLeftCircularAccumulator => "RLCA"@,
            Instruction::RotateLeftAccumulator => "RLA"@,
            Instruction::RotateRightCircularAccumulator => "RRCA"@,
            Instruction::RotateRightAccumulator => "RRA"@,
            Instruction::AddCarry(operand) => "ADC "@ + operand.name_spec(),
            Instruction::Subtract(operand) => "SUB A, "@ + operand.name_spec(),
            Instruction::SubtractCarry(operand) => "SBC A , "@ + operand.name_spec(),
            Instruction::And(operand) => "AND "@ + operand.name_spec(),
            Instruction::Or(operand) => "OR "@ + operand.name_spec(),
            Instruction::XOr(operand) => "XOR "@ + operand.name_spec(),
            Instruction::Increment(operand) => "INC "@ + operand.name_spec(),
            Instruction::Decrement(operand) => "DEC "@ + operand.name_spec(),
            Instruction::RotateLeftCircular(operand) => "RLC "@ + operand.name_spec(),
            Instruction::RotateLeft(operand) => "RL "@ + operand.name_spec(),
            Instruction::JumpRelative(operand) => "JR "@ + operand.name_spec() + ", e"@,
            Instruction::Compare(operand) => "CP "@ + operand.name_spec(),
            Instruction::RotateRightCircular(operand) => "RRC "@ + operand.name_spec(),
            Instruction::RotateRight(operand) => "RR "@ + operand.name_spec(),
            Instruction::ShiftRightArithmetic(operand) => "SRA "@ + operand.name_spec(),
            Instruction::ShiftRightLogical(operand) => "SRL "@ + operand.name_spec(),
            Instruction::ShiftLeftArithmetic(operand) => "SLA "@ + operand.name_spec(),
            Instruction::Swap(operand) => "SWAP "@ + operand.name_spec(),
            Instruction::Return(operand) => "RET "@ + operand.name_spec(),
            Instruction::Jump(operand) => "JP "@ + operand.name_spec() + " nn"@,
            Instruction::Pop(operand) => "POP "@ + operand.name_spec(),
            Instruction::Push(operand) => "PUSH "@ + operand.name_spec(),
            Instruction::Call(operand) => "CALL "@ + operand.name_spec(),
            Instruction::Add(target, source) => "ADD "@ + target.name_spec() + ", "@
                + source.name_spec(),
            Instruction::Load(target, source) => "LD "@ + target.name_spec() + ", "@
                + source.name_spec(),
            Instruction::LoadAccumulator(target, source) => "LDH "@ + target.name_spec() + ", "@
                + source.name_spec(),
            Instruction::Bit(bit, operand) => "BIT "@ + hexadecimal(bit as nat) + " "@
                + operand.name_spec(),
            Instruction::SetBit(bit, operand) => "SET "@ + hexadecimal(bit as nat) + " "@
                + operand.name_spec(),
            Instruction::ResetBit(bit, operand) => "RES "@ + hexadecimal(bit as nat) + " "@
                + operand.name_spec(),
            Instruction::Restart(value) => "RST "@ + hexadecimal(value as nat),
            Instruction::Illegal(value) => "ILLEGAL "@ + hexadecimal(value as nat),
        }
    }

    /// The instruction in the words of an assembler listing.
    pub fn mnemonic(&self) -> (r: String)
        ensures
            r@ == self.mnemonic_spec(),
    {
        match self {
            Instruction::Nop => "NOP".to_string(),
            Instruction::Stop => "STOP".to_string(),
            Instruction::Halt => "HALT".to_string(),
            Instruction::DisableInterrupts => "DI".to_string(),
            Instruction::EnableInterrupts => "EI".to_string(),
            Instruction::DecimalAdjustAccumulator => "DAA".to_string(),
            Instruction::SetCarryFlag => "SCF".to_string(),
            Instruction::ComplementAccumulator => "CPL".to_string(),
            Instruction::ComplementCarryFlag => "CCF".to_string(),
            Instruction::ReturnInterrupt => "RETI".to_string(),
            Instruction::JumpHL => "JP HL".to_string(),
            Instruction::CB => "CB".to_string(),
            Instruction::RotateLeftCircularAccumulator => "RLCA".to_string(),
            Instruction::RotateLeftAccumulator => "RLA".to_string(),
            Instruction::RotateRightCircularAccumulator => "RRCA".to_string(),
            Instruction::RotateRightAccumulator => "RRA".to_string(),
            Instruction::AddCarry(operand) => {
                let mut text = "ADC ".to_string();
                text.append(operand.name());
                text
            },
            Instruction::Subtract(operand) => {
                let mut text = "SUB A, ".to_string();
                text.append(operand.name());
                text
            },
            Instruction::SubtractCarry(operand) => {
                let mut text = "SBC A , ".to_string();
                text.append(operand.name());
                text
            },
            Instruction::And(operand) => {
                let mut text = "AND ".to_string();
                text.append(operand.name());
                text
            },
            Instruction::Or(operand) => {
                let mut text = "OR ".to_string();
                text.append(operand.name());
                text
            },
            Instruction::XOr(operand) => {
                let mut text = "XOR ".to_string();
                text.append(operand.name());
                text
            },
            Instruction::Increment(operand) => {
                let mut text = "INC ".to_string();
                text.append(operand.name());
                text
            },
            Instruction::Decrement(operand) => {
                let mut text = "DEC ".to_string();
                text.append(operand.name());
                text
            },
            Instruction::RotateLeftCircular(operand) => {
                let mut text = "RLC ".to_string();
                text.append(operand.name());
                text
            },
            Instruction::RotateLeft(operand) => {
                let mut text = "RL ".to_string();
                text.append(operand.name());
                text
            },
            Instruction::JumpRelative(operand) => {
                let mut text = "JR ".to_string();
                text.append(operand.name());
                text.append(", e");
                text
            },
            Instruction::Compare(operand) => {
                let mut text = "CP ".to_string();
                text.append(operand.name());
                text
            },
            Instruction::RotateRightCircular(operand) => {
                let mut text = "RRC ".to_string();
                text.append(operand.name());
                text
            },
            Instruction::RotateRight(operand) => {
                let mut text = "RR ".to_string();
                text.append(operand.name());
                text
            },
            Instruction::ShiftRightArithmetic(operand) => {
                let mut text = "SRA ".to_string();
                text.append(operand.name());
                text
            },
            Instruction::ShiftRightLogical(operand) => {
                let mut text = "SRL ".to_string();
                text.append(operand.name());
                text
            },
            Instruction::ShiftLeftArithmetic(operand) => {
                let mut text = "SLA ".to_string();
                text.append(operand.name());
                text
            },
            Instruction::Swap(operand) => {
                let mut text = "SWAP ".to_string();
                text.append(operand.name());
                text
            },
            Instruction::Return(operand) => {
                let mut text = "RET ".to_string();
                text.append(operand.name());
                text
            },
            Instruction::Jump(operand) => {
                let mut text = "JP ".to_string();
                text.append(operand.name());
                text.append(" nn");
                text
            },
            Instruction::Pop(operand) => {
                let mut text = "POP ".to_string();
                text.append(operand.name());
                text
            },
            Instruction::Push(operand) => {
                let mut text = "PUSH ".to_string();
                text.append(operand.name());
                text
            },
            Instruction::Call(operand) => {
                let mut text = "CALL ".to_string();
                text.append(operand.name());
                text
            },
            Instruction::Add(target, source) => {
                let mut text = "ADD ".to_string();
                text.append(target.name());
                text.append(", ");
                text.append(source.name());
                text
            },
            Instruction::Load(target, source) => {
                let mut text = "LD ".to_string();
                text.append(target.name());
                text.append(", ");
                text.append(source.name());
                text
            },
            Instruction::LoadAccumulator(target, source) => {
                let mut text = "LDH ".to_string();
                text.append(target.name());
                text.append(", ");
                text.append(source.name());
                text
            },
            Instruction::Bit(bit, operand) => {
                let mut text = "BIT ".to_string();
                append_hexadecimal(&mut text, *bit as u64);
                text.append(" ");
                text.append(operand.name());
                text
            },
            Instruction::SetBit(bit, operand) => {
                let mut text = "SET ".to_string();
                append_hexadecimal(&mut text, *bit as u64);
                text.append(" ");
                text.append(operand.name());
                text
            },
            Instruction::ResetBit(bit, operand) => {
                let mut text = "RES ".to_string();
                append_hexadecimal(&mut text, *bit as u64);
                text.append(" ");
                text.append(operand.name());
                text
            },
            Instruction::Restart(value) => {
                let mut text = "RST ".to_string();
                append_hexadecimal(&mut text, *value as u64);
                text
            },
            Instruction::Illegal(value) => {
                let mut text = "ILLEGAL ".to_string();
                append_hexadecimal(&mut text, *value as u64);
                text
            },
        }
    }
}

} // verus!

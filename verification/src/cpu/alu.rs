//! The arithmetic of the processor, as functions from values to values.
use vstd::prelude::*;

verus! {

/// What an eight-bit operation gives: the value and the four flags.
#[derive(Debug, Clone, Copy, PartialEq, Eq, Structural)]
pub struct AluResult {
    pub value: u8,
    pub zero: bool,
    pub subtract: bool,
    pub half_carry: bool,
    pub carry: bool,
}

/// The rotations and shifts of a byte.
#[derive(Debug, Clone, Copy, PartialEq, Eq, Structural)]
pub enum RotateKind {
    /// RLC: bit 7 goes to bit 0 and to the carry.
    LeftCircular,
    /// RL: bit 7 goes to the carry, the old carry to bit 0.
    Left,
    /// RRC: bit 0 goes to bit 7 and to the carry.
    RightCircular,
    /// RR: bit 0 goes to the carry, the old carry to bit 7.
    Right,
    /// SLA: bit 7 goes to the carry, bit 0 is cleared.
    ShiftLeft,
    /// SRA: bit 0 goes to the carry, bit 7 stays.
    ShiftRightArithmetic,
    /// SRL: bit 0 goes to the carry, bit 7 is cleared.
    ShiftRightLogical,
}

/// One for a set carry, zero for a clear one.
pub open spec fn carry_in(carry: bool) -> int {
    if carry {
        1
    } else {
        0
    }
}

/// `a + b + carry`: H is the carry out of bit 3, C the carry out of bit 7.
pub open spec fn add8(a: u8, b: u8, carry: bool) -> AluResult {
    let sum = a + b + carry_in(carry);
    AluResult {
        value: (sum % 256) as u8,
        zero: sum % 256 == 0,
        subtract: false,
        half_carry: a % 16 + b % 16 + carry_in(carry) > 15,
        carry: sum > 255,
    }
}

/// `a - b - carry`: H is the borrow into bit 3, C the borrow into bit 7.
pub open spec fn sub8(a: u8, b: u8, carry: bool) -> AluResult {
    let difference = a - b - carry_in(carry);
    AluResult {
        value: (difference % 256) as u8,
        zero: difference % 256 == 0,
        subtract: true,
        half_carry: a % 16 < b % 16 + carry_in(carry),
        carry: a < b + carry_in(carry),
    }
}

/// `a & b`, with H set.
pub open spec fn and8(a: u8, b: u8) -> AluResult {
    AluResult { value: a & b, zero: a & b == 0, subtract: false, half_carry: true, carry: false }
}

/// `a | b`.
pub open spec fn or8(a: u8, b: u8) -> AluResult {
    AluResult { value: a | b, zero: a | b == 0, subtract: false, half_carry: false, carry: false }
}

/// `a ^ b`.
pub open spec fn xor8(a: u8, b: u8) -> AluResult {
    AluResult { value: a ^ b, zero: a ^ b == 0, subtract: false, half_carry: false, carry: false }
}

/// A byte rotated or shifted by one bit, and the bit that left it.
pub open spec fn rotated(kind: RotateKind, value: u8, carry: bool) -> (u8, bool) {
    match kind {
        RotateKind::LeftCircular => (((value * 2) % 256 + value / 128) as u8, value >= 128),
        RotateKind::Left => (((value * 2) % 256 + carry_in(carry)) as u8, value >= 128),
        RotateKind::RightCircular => ((value / 2 + (value % 2) * 128) as u8, value % 2 == 1),
        RotateKind::Right => ((value / 2 + carry_in(carry) * 128) as u8, value % 2 == 1),
        RotateKind::ShiftLeft => (((value * 2) % 256) as u8, value >= 128),
        RotateKind::ShiftRightArithmetic => (
            (value / 2 + (value / 128) * 128) as u8,
            value % 2 == 1,
        ),
        RotateKind::ShiftRightLogical => ((value / 2) as u8, value % 2 == 1),
    }
}

/// A byte with its two nibbles exchanged.
pub open spec fn swapped(value: u8) -> u8 {
    ((value % 16) * 16 + value / 16) as u8
}

/// The accumulator adjusted to binary-coded decimal after an addition or a
/// subtraction of two such numbers, and the carry.
///
/// After an addition 6 is added where the low digit is above 9 or H is set,
/// and 0x60 where the value is above 0x99 or C is set, which also sets C.
/// After a subtraction 6 is taken off where H is set and 0x60 where C is set;
/// C stays.
pub open spec fn decimal_adjusted(a: u8, subtract: bool, half_carry: bool, carry: bool) -> (
    u8,
    bool,
) {
    if subtract {
        (
            ((a - (if half_carry { 6int } else { 0 }) - (if carry { 0x60int } else { 0 }))
                % 256) as u8,
            carry,
        )
    } else {
        (
            ((a + (if half_carry || a % 16 > 9 { 6int } else { 0 }) + (if carry || a > 0x99 {
                0x60int
            } else {
                0
            })) % 256) as u8,
            carry || a > 0x99,
        )
    }
}

/// Whether bit `n mod 8` of a byte is set.
pub open spec fn bit_set(value: u8, n: u8) -> bool {
    (value >> (n % 8)) & 1 == 1
}

/// A byte with bit `n mod 8` set.
pub open spec fn with_bit(value: u8, n: u8) -> u8 {
    value | (1u8 << (n % 8))
}

/// A byte with bit `n mod 8` cleared.
pub open spec fn without_bit(value: u8, n: u8) -> u8 {
    value & !(1u8 << (n % 8))
}

/// `a + b` in sixteen bits: H is the carry out of bit 11, C the carry out of
/// bit 15.
pub open spec fn add16(a: u16, b: u16) -> (u16, bool, bool) {
    (((a + b) % 0x10000) as u16, a % 0x1000 + b % 0x1000 > 0xFFF, a + b > 0xFFFF)
}

/// A byte read as a signed number.
pub open spec fn signed(e: u8) -> int {
    if e < 128 {
        e as int
    } else {
        e - 256
    }
}

/// A sixteen-bit value plus a signed byte: H and C are the carries out of
/// bit 3 and bit 7 of the sum of the low byte and the byte unsigned.
pub open spec fn add_signed(value: u16, e: u8) -> (u16, bool, bool) {
    (
        ((value + signed(e)) % 0x10000) as u16,
        value % 16 + e % 16 > 15,
        value % 256 + e > 255,
    )
}

/// The pair made of a high and a low byte.
pub open spec fn word(high: u8, low: u8) -> u16 {
    (high as int * 256 + low as int) as u16
}

/// `a + b + carry` with its flags.
pub fn add_bytes(a: u8, b: u8, carry: bool) -> (r: AluResult)
    ensures
        r == add8(a, b, carry),
{
    let c: u16 = if carry { 1 } else { 0 };
    let sum: u16 = a as u16 + b as u16 + c;
    let value: u8 = (sum % 256) as u8;
    AluResult {
        value,
        zero: value == 0,
        subtract: false,
        half_carry: (a % 16) as u16 + (b % 16) as u16 + c > 15,
        carry: sum > 255,
    }
}

/// `a - b - carry` with its flags.
pub fn subtract_bytes(a: u8, b: u8, carry: bool) -> (r: AluResult)
    ensures
        r == sub8(a, b, carry),
{
    let c: i16 = if carry { 1 } else { 0 };
    let difference: i16 = a as i16 - b as i16 - c;
    let value: u8 = if difference < 0 { (difference + 256) as u8 } else { difference as u8 };
    AluResult {
        value,
        zero: value == 0,
        subtract: true,
        half_carry: ((a % 16) as i16) < (b % 16) as i16 + c,
        carry: (a as i16) < b as i16 + c,
    }
}

/// `a & b` with its flags.
pub fn and_bytes(a: u8, b: u8) -> (r: AluResult)
    ensures
        r == and8(a, b),
{
    let value: u8 = a & b;
    AluResult { value, zero: value == 0, subtract: false, half_carry: true, carry: false }
}

/// `a | b` with its flags.
pub fn or_bytes(a: u8, b: u8) -> (r: AluResult)
    ensures
        r == or8(a, b),
{
    let value: u8 = a | b;
    AluResult { value, zero: value == 0, subtract: false, half_carry: false, carry: false }
}

/// `a ^ b` with its flags.
pub fn xor_bytes(a: u8, b: u8) -> (r: AluResult)
    ensures
        r == xor8(a, b),
{
    let value: u8 = a ^ b;
    AluResult { value, zero: value == 0, subtract: false, half_carry: false, carry: false }
}

/// Rotates or shifts a byte by one bit.
pub fn rotate_byte(kind: RotateKind, value: u8, carry: bool) -> (r: (u8, bool))
    ensures
        r == rotated(kind, value, carry),
{
    let c: u8 = if carry { 1 } else { 0 };
    let doubled: u8 = ((value as u16 * 2) % 256) as u8;
    match kind {
        RotateKind::LeftCircular => (doubled + value / 128, value >= 128),
        RotateKind::Left => (doubled + c, value >= 128),
        RotateKind::RightCircular => (value / 2 + (value % 2) * 128, value % 2 == 1),
        RotateKind::Right => (value / 2 + c * 128, value % 2 == 1),
        RotateKind::ShiftLeft => (doubled, value >= 128),
        RotateKind::ShiftRightArithmetic => (value / 2 + (value / 128) * 128, value % 2 == 1),
        RotateKind::ShiftRightLogical => (value / 2, value % 2 == 1),
    }
}

/// Exchanges the two nibbles of a byte.
pub fn swap_nibbles(value: u8) -> (r: u8)
    ensures
        r == swapped(value),
{
    (value % 16) * 16 + value / 16
}

/// Adjusts the accumulator to binary-coded decimal.
pub fn decimal_adjust(a: u8, subtract: bool, half_carry: bool, carry: bool) -> (r: (u8, bool))
    ensures
        r == decimal_adjusted(a, subtract, half_carry, carry),
{
    if subtract {
        let low: i16 = if half_carry { 6 } else { 0 };
        let high: i16 = if carry { 0x60 } else { 0 };
        let difference: i16 = a as i16 - low - high;
        let value: u8 = if difference < 0 { (difference + 256) as u8 } else { difference as u8 };
        (value, carry)
    } else {
        let low: u16 = if half_carry || a % 16 > 9 { 6 } else { 0 };
        let over = carry || a > 0x99;
        let high: u16 = if over { 0x60 } else { 0 };
        (((a as u16 + low + high) % 256) as u8, over)
    }
}

/// Whether bit `n mod 8` of a byte is set.
pub fn test_bit(value: u8, n: u8) -> (r: bool)
    ensures
        r == bit_set(value, n),
{
    (value >> (n % 8)) & 1 == 1
}

/// Sets bit `n mod 8` of a byte.
pub fn set_bit(value: u8, n: u8) -> (r: u8)
    ensures
        r == with_bit(value, n),
{
    value | (1u8 << (n % 8))
}

/// Clears bit `n mod 8` of a byte.
pub fn reset_bit(value: u8, n: u8) -> (r: u8)
    ensures
        r == without_bit(value, n),
{
    value & !(1u8 << (n % 8))
}

/// `a + b` in sixteen bits with its carries.
pub fn add_words(a: u16, b: u16) -> (r: (u16, bool, bool))
    ensures
        r == add16(a, b),
{
    let sum: u32 = a as u32 + b as u32;
    ((sum % 0x10000) as u16, (a % 0x1000) as u32 + (b % 0x1000) as u32 > 0xFFF, sum > 0xFFFF)
}

/// A sixteen-bit value plus a signed byte, with the carries of the low byte.
pub fn add_offset(value: u16, e: u8) -> (r: (u16, bool, bool))
    ensures
        r == add_signed(value, e),
{
    let sum: i32 = if e < 128 { value as i32 + e as i32 } else { value as i32 + e as i32 - 256 };
    let wrapped: u16 = if sum < 0 {
        (sum + 0x10000) as u16
    } else if sum > 0xFFFF {
        (sum - 0x10000) as u16
    } else {
        sum as u16
    };
    (wrapped, (value % 16) as u16 + (e % 16) as u16 > 15, (value % 256) as u16 + e as u16 > 255)
}

/// Puts a high and a low byte together.
pub fn make_word(high: u8, low: u8) -> (r: u16)
    ensures
        r == word(high, low),
{
    high as u16 * 256 + low as u16
}

} // verus!

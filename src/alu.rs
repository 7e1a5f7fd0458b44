//! Pure arithmetic of the shift, rotate and subtract instructions.
use vstd::prelude::*;

verus! {

/// Shift left: the result and the bit shifted out (the new Carry).
pub open spec fn asl_spec(v: u8) -> (u8, bool) {
    (((v as int * 2) % 256) as u8, v >= 0x80)
}

/// Logical shift right: the result and the bit shifted out.
pub open spec fn lsr_spec(v: u8) -> (u8, bool) {
    ((v / 2) as u8, v % 2 == 1)
}

/// Rotate left through Carry.
pub open spec fn rol_spec(v: u8, c: bool) -> (u8, bool) {
    ((((v as int * 2) % 256) + (if c { 1int } else { 0 })) as u8, v >= 0x80)
}

/// Rotate right through Carry.
pub open spec fn ror_spec(v: u8, c: bool) -> (u8, bool) {
    (((v / 2) as int + (if c { 0x80int } else { 0 })) as u8, v % 2 == 1)
}

/// A byte read as a two's-complement number.
pub open spec fn signed(v: u8) -> int {
    if v >= 0x80 { v as int - 256 } else { v as int }
}

/// Binary subtract with borrow: `a - b - (1 - c)`. Returns the result byte,
/// the new Carry (no borrow out of the nine-bit difference) and the new
/// Overflow (the signed difference leaves -128..127).
pub open spec fn sbc_spec(a: u8, b: u8, c: bool) -> (u8, bool, bool) {
    let borrow: int = if c { 0 } else { 1 };
    let diff = a as int - b as int - borrow;
    let sdiff = signed(a) - signed(b) - borrow;
    (((diff + 256) % 256) as u8, diff >= 0, sdiff < -128 || sdiff > 127)
}

/// Binary add with carry: `a + b + c`. Returns the result byte, the new
/// Carry (the nine-bit sum exceeds 255) and the new Overflow (the signed sum
/// leaves -128..127).
pub open spec fn adc_spec(a: u8, b: u8, c: bool) -> (u8, bool, bool) {
    let cin: int = if c { 1 } else { 0 };
    let sum = a as int + b as int + cin;
    let ssum = signed(a) + signed(b) + cin;
    ((sum % 256) as u8, sum > 255, ssum < -128 || ssum > 127)
}

/// The flags of a comparison of a register with an operand: Carry when the
/// register is not below it, Zero when they are equal, Negative from bit 7
/// of their difference.
pub open spec fn compare_spec(r: u8, v: u8) -> (bool, bool, bool) {
    (r >= v, r == v, (r as int - v as int + 256) % 256 >= 0x80)
}

pub fn adc_value(a: u8, b: u8, c: bool) -> (r: (u8, bool, bool))
    ensures
        r == adc_spec(a, b, c),
{
    let cin: i16 = if c { 1 } else { 0 };
    let sum: i16 = a as i16 + b as i16 + cin;
    let sa: i16 = if a >= 0x80 { a as i16 - 256 } else { a as i16 };
    let sb: i16 = if b >= 0x80 { b as i16 - 256 } else { b as i16 };
    let ssum: i16 = sa + sb + cin;
    let res: u8 = if sum > 255 { (sum - 256) as u8 } else { sum as u8 };
    (res, sum > 255, ssum < -128 || ssum > 127)
}

/// Returns Carry, Zero and Negative of the comparison.
pub fn compare_value(r: u8, v: u8) -> (f: (bool, bool, bool))
    ensures
        f == compare_spec(r, v),
{
    let diff: u8 = if r >= v { r - v } else { ((r as u16 + 256) - v as u16) as u8 };
    (r >= v, r == v, diff >= 0x80)
}

pub fn asl_value(v: u8) -> (r: (u8, bool))
    ensures
        r == asl_spec(v),
{
    if v >= 0x80 {
        ((v - 0x80) * 2, true)
    } else {
        (v * 2, false)
    }
}

pub fn lsr_value(v: u8) -> (r: (u8, bool))
    ensures
        r == lsr_spec(v),
{
    (v / 2, v % 2 == 1)
}

pub fn rol_value(v: u8, c: bool) -> (r: (u8, bool))
    ensures
        r == rol_spec(v, c),
{
    let (s, out) = asl_value(v);
    if c {
        (s + 1, out)
    } else {
        (s, out)
    }
}

pub fn ror_value(v: u8, c: bool) -> (r: (u8, bool))
    ensures
        r == ror_spec(v, c),
{
    let (s, out) = lsr_value(v);
    if c {
        (s + 0x80, out)
    } else {
        (s, out)
    }
}

pub fn sbc_value(a: u8, b: u8, c: bool) -> (r: (u8, bool, bool))
    ensures
        r == sbc_spec(a, b, c),
{
    let borrow: i16 = if c { 0 } else { 1 };
    let diff: i16 = a as i16 - b as i16 - borrow;
    let sa: i16 = if a >= 0x80 { a as i16 - 256 } else { a as i16 };
    let sb: i16 = if b >= 0x80 { b as i16 - 256 } else { b as i16 };
    let sdiff: i16 = sa - sb - borrow;
    let res: u8 = if diff >= 0 { diff as u8 } else { (diff + 256) as u8 };
    (res, diff >= 0, sdiff < -128 || sdiff > 127)
}

} // verus!

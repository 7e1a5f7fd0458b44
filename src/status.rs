//! The processor status register.
use vstd::prelude::*;

verus! {

/// The eight status bits. The reserved bit always reads as set, so it is not
/// stored.
#[derive(Clone, Copy, Debug, PartialEq, Eq, Structural)]
pub struct StatusReg {
    pub negative: bool,
    pub overflow: bool,
    pub brk: bool,
    pub decimal: bool,
    pub interrupt_disable: bool,
    pub zero: bool,
    pub carry: bool,
}

/// Zero is set when the byte is 0, Negative holds bit 7.
pub open spec fn zn_of(s: StatusReg, v: u8) -> StatusReg {
    StatusReg { zero: v == 0, negative: v >= 0x80, ..s }
}

impl StatusReg {
    /// The power-on value: the reserved and Break bits set, all others clear.
    pub open spec fn power_on() -> StatusReg {
        StatusReg {
            negative: false,
            overflow: false,
            brk: true,
            decimal: false,
            interrupt_disable: false,
            zero: false,
            carry: false,
        }
    }

    /// Sets Zero and Negative from a result byte, leaving the other bits alone.
    pub fn set_zn(&mut self, v: u8)
        ensures
            *final(self) == zn_of(*old(self), v),
    {
        self.zero = v == 0;
        self.negative = v >= 0x80;
    }

    /// The register as the byte the processor pushes: bit 7 Negative down to
    /// bit 0 Carry, with bit 5 always set.
    pub open spec fn byte_spec(self) -> u8 {
        ((if self.negative { 0x80int } else { 0 }) + (if self.overflow { 0x40int } else { 0 })
            + 0x20 + (if self.brk { 0x10int } else { 0 }) + (if self.decimal { 0x08int } else { 0 })
            + (if self.interrupt_disable { 0x04int } else { 0 }) + (if self.zero { 0x02int } else { 0 })
            + (if self.carry { 0x01int } else { 0 })) as u8
    }

    pub fn to_byte(&self) -> (r: u8)
        ensures
            r == self.byte_spec(),
    {
        let mut b: u8 = 0x20;
        if self.negative {
            b = b + 0x80;
        }
        if self.overflow {
            b = b + 0x40;
        }
        if self.brk {
            b = b + 0x10;
        }
        if self.decimal {
            b = b + 0x08;
        }
        if self.interrupt_disable {
            b = b + 0x04;
        }
        if self.zero {
            b = b + 0x02;
        }
        if self.carry {
            b = b + 0x01;
        }
        b
    }
}

impl Default for StatusReg {
    fn default() -> (r: StatusReg)
        ensures
            r == StatusReg::power_on(),
    {
        StatusReg {
            negative: false,
            overflow: false,
            brk: true,
            decimal: false,
            interrupt_disable: false,
            zero: false,
            carry: false,
        }
    }
}

} // verus!

//! Interrupt controller: the IE and IF bit masks over the five interrupt
//! sources and the master-enable flag, with the raise / query / clear
//! primitives the peripherals and the CPU share. The single-bit helpers
//! the whole crate describes register bits with live here too.

use vstd::prelude::*;

verus! {

pub const INTERRUPT_VBLANK: u8 = 1;
pub const INTERRUPT_LCD_STAT: u8 = 2;
pub const INTERRUPT_TIMER: u8 = 4;
pub const INTERRUPT_SERIAL: u8 = 8;
pub const INTERRUPT_JOYPAD: u8 = 16;

/// True when `b` is one of the five interrupt source bits.
pub open spec fn is_source_bit(b: u8) -> bool {
    b == 1 || b == 2 || b == 4 || b == 8 || b == 16
}

/// True when the bit of weight `b` (a power of two) is set in `x`.
pub open spec fn bit_set(x: u8, b: u8) -> bool {
    (x as int / b as int) % 2 == 1
}

/// `x` with the bit of weight `b` set.
pub open spec fn with_bit(x: u8, b: u8) -> u8 {
    if bit_set(x, b) {
        x
    } else {
        (x + b) as u8
    }
}

/// `x` with the bit of weight `b` cleared.
pub open spec fn without_bit(x: u8, b: u8) -> u8 {
    if bit_set(x, b) {
        (x - b) as u8
    } else {
        x
    }
}

pub open spec fn spec_pow2(k: u8) -> u8 {
    if k == 0 {
        1
    } else if k == 1 {
        2
    } else if k == 2 {
        4
    } else if k == 3 {
        8
    } else if k == 4 {
        16
    } else if k == 5 {
        32
    } else if k == 6 {
        64
    } else {
        128
    }
}

/// The power of two with exponent `k`, for selecting a bit.
pub fn pow2(k: u8) -> (r: u8)
    requires
        k < 8,
    ensures
        r == spec_pow2(k),
        r >= 1,
{
    match k {
        0 => 1,
        1 => 2,
        2 => 4,
        3 => 8,
        4 => 16,
        5 => 32,
        6 => 64,
        _ => 128,
    }
}

pub struct InterruptController {
    /// IE: which sources may be serviced.
    pub enable: u8,
    /// IF: which sources are currently requesting service.
    pub flag: u8,
    /// IME: the global gate on servicing.
    pub master_enable: bool,
}

impl InterruptController {
    pub fn new() -> (r: InterruptController)
        ensures
            r.enable == 0,
            r.flag == 0,
            !r.master_enable,
    {
        InterruptController { enable: 0, flag: 0, master_enable: false }
    }

    /// Tests the bit of weight `source` in the request mask IF.
    pub fn flag_bit(&self, source: u8) -> (r: bool)
        requires
            is_source_bit(source),
        ensures
            r == bit_set(self.flag, source),
    {
        (self.flag / source) % 2 == 1
    }

    /// Tests the bit of weight `source` in the enable mask IE.
    pub fn enable_bit(&self, source: u8) -> (r: bool)
        requires
            is_source_bit(source),
        ensures
            r == bit_set(self.enable, source),
    {
        (self.enable / source) % 2 == 1
    }

    /// Requests service for `source`: sets its IF bit.
    pub fn raise(&mut self, source: u8)
        requires
            is_source_bit(source),
        ensures
            *final(self) == (InterruptController {
                flag: with_bit(old(self).flag, source),
                ..*old(self)
            }),
    {
        if (self.flag / source) % 2 == 0 {
            self.flag = self.flag + source;
        }
    }

    /// Drops the request for `source`: clears its IF bit.
    pub fn clear(&mut self, source: u8)
        requires
            is_source_bit(source),
        ensures
            *final(self) == (InterruptController {
                flag: without_bit(old(self).flag, source),
                ..*old(self)
            }),
    {
        if (self.flag / source) % 2 == 1 {
            self.flag = self.flag - source;
        }
    }
}

} // verus!

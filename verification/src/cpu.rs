//! CPU engine: the register file, the flag rules of every arithmetic and
//! rotate instruction, the stack discipline, and the fetch/decode/execute
//! step with its end-of-step interrupt service check.

use vstd::prelude::*;

use crate::interrupt::InterruptController;
use crate::interrupt::INTERRUPT_VBLANK;
use crate::interrupt::INTERRUPT_LCD_STAT;
use crate::interrupt::INTERRUPT_TIMER;
use crate::interrupt::INTERRUPT_SERIAL;
use crate::interrupt::INTERRUPT_JOYPAD;
use crate::interrupt::bit_set;
use crate::interrupt::with_bit;
use crate::interrupt::without_bit;
use crate::interrupt::spec_pow2;
use crate::interrupt::pow2;
use crate::mem::MemoryMap;
use crate::mem::MemState;
use crate::mem::spec_read;
use crate::mem::spec_write;

verus! {

/// The four condition flags packed into the high nibble of F.
/// They are held unpacked, so the low nibble of F is zero by construction.
pub struct Cpu {
    pub a: u8,
    pub b: u8,
    pub c: u8,
    pub d: u8,
    pub e: u8,
    pub h: u8,
    pub l: u8,
    /// Zero flag, bit 7 of F.
    pub flag_z: bool,
    /// Subtract flag, bit 6 of F.
    pub flag_n: bool,
    /// Half-carry flag, bit 5 of F.
    pub flag_h: bool,
    /// Carry flag, bit 4 of F.
    pub flag_c: bool,
    pub pc: u16,
    pub sp: u16,
    /// Cumulative machine-cycle count; only ever grows.
    pub cycles: u64,
    pub halt: bool,
}

/// F as a byte: one bit per flag in the high nibble, low nibble zero.
pub open spec fn flags_to_byte(z: bool, n: bool, h: bool, c: bool) -> u8 {
    ((if z { 128int } else { 0int }) + (if n { 64int } else { 0int })
        + (if h { 32int } else { 0int }) + (if c { 16int } else { 0int })) as u8
}

impl Cpu {
    pub fn new() -> (r: Cpu)
        ensures
            r.a == 0x01,
            r.flag_z && !r.flag_n && r.flag_h && r.flag_c,
            r.b == 0x00,
            r.c == 0x13,
            r.d == 0x00,
            r.e == 0xd8,
            r.h == 0x00,
            r.l == 0x00,
            r.sp == 0xfffe,
            r.pc == 0x100,
            r.cycles == 0,
            !r.halt,
    {
        Cpu {
            a: 0x01,
            // F starts as 0xb0: Zero, HalfCarry and Carry set.
            flag_z: true,
            flag_n: false,
            flag_h: true,
            flag_c: true,
            b: 0x00,
            c: 0x13,
            d: 0x00,
            e: 0xd8,
            h: 0x00,
            l: 0x00,
            sp: 0xfffe,
            pc: 0x100,
            cycles: 0,
            halt: false,
        }
    }

    /// F materialised as a byte; its low four bits are always zero.
    pub fn f(&self) -> (r: u8)
        ensures
            r == flags_to_byte(self.flag_z, self.flag_n, self.flag_h, self.flag_c),
            r % 16 == 0,
    {
        let mut v: u8 = 0;
        if self.flag_z {
            v = v + 128;
        }
        if self.flag_n {
            v = v + 64;
        }
        if self.flag_h {
            v = v + 32;
        }
        if self.flag_c {
            v = v + 16;
        }
        v
    }

    /// Loads F from a byte; the low four bits are discarded.
    pub fn set_f(&mut self, v: u8)
        ensures
            *final(self) == (Cpu {
                flag_z: v as int / 128 % 2 == 1,
                flag_n: v as int / 64 % 2 == 1,
                flag_h: v as int / 32 % 2 == 1,
                flag_c: v as int / 16 % 2 == 1,
                ..*old(self)
            }),
    {
        self.flag_z = v / 128 % 2 == 1;
        self.flag_n = v / 64 % 2 == 1;
        self.flag_h = v / 32 % 2 == 1;
        self.flag_c = v / 16 % 2 == 1;
    }

    pub fn af(&self) -> (r: u16)
        ensures
            r == self.a * 256 + flags_to_byte(self.flag_z, self.flag_n, self.flag_h, self.flag_c),
            r % 16 == 0,
    {
        (self.a as u16) * 256 + (self.f() as u16)
    }

    pub fn set_af(&mut self, af: u16)
        ensures
            *final(self) == (Cpu {
                a: (af as int / 256) as u8,
                flag_z: af as int % 256 / 128 % 2 == 1,
                flag_n: af as int % 256 / 64 % 2 == 1,
                flag_h: af as int % 256 / 32 % 2 == 1,
                flag_c: af as int % 256 / 16 % 2 == 1,
                ..*old(self)
            }),
    {
        self.a = (af / 256) as u8;
        self.set_f((af % 256) as u8);
    }

    pub fn bc(&self) -> (r: u16)
        ensures
            r == self.b * 256 + self.c,
    {
        (self.b as u16) * 256 + (self.c as u16)
    }

    pub fn set_bc(&mut self, bc: u16)
        ensures
            *final(self) == (Cpu {
                b: (bc as int / 256) as u8,
                c: (bc as int % 256) as u8,
                ..*old(self)
            }),
    {
        self.b = (bc / 256) as u8;
        self.c = (bc % 256) as u8;
    }

    pub fn de(&self) -> (r: u16)
        ensures
            r == self.d * 256 + self.e,
    {
        (self.d as u16) * 256 + (self.e as u16)
    }

    pub fn set_de(&mut self, de: u16)
        ensures
            *final(self) == (Cpu {
                d: (de as int / 256) as u8,
                e: (de as int % 256) as u8,
                ..*old(self)
            }),
    {
        self.d = (de / 256) as u8;
        self.e = (de % 256) as u8;
    }

    pub fn hl(&self) -> (r: u16)
        ensures
            r == self.h * 256 + self.l,
    {
        (self.h as u16) * 256 + (self.l as u16)
    }

    pub fn set_hl(&mut self, hl: u16)
        ensures
            *final(self) == (Cpu {
                h: (hl as int / 256) as u8,
                l: (hl as int % 256) as u8,
                ..*old(self)
            }),
    {
        self.h = (hl / 256) as u8;
        self.l = (hl % 256) as u8;
    }

    pub fn zero(&self) -> (r: bool)
        ensures
            r == self.flag_z,
    {
        self.flag_z
    }

    pub fn subtract(&self) -> (r: bool)
        ensures
            r == self.flag_n,
    {
        self.flag_n
    }

    pub fn half_carry(&self) -> (r: bool)
        ensures
            r == self.flag_h,
    {
        self.flag_h
    }

    pub fn carry(&self) -> (r: bool)
        ensures
            r == self.flag_c,
    {
        self.flag_c
    }

    pub fn set_zero(&mut self, val: bool)
        ensures
            *final(self) == (Cpu { flag_z: val, ..*old(self) }),
    {
        self.flag_z = val;
    }

    pub fn set_subtract(&mut self, val: bool)
        ensures
            *final(self) == (Cpu { flag_n: val, ..*old(self) }),
    {
        self.flag_n = val;
    }

    pub fn set_half_carry(&mut self, val: bool)
        ensures
            *final(self) == (Cpu { flag_h: val, ..*old(self) }),
    {
        self.flag_h = val;
    }

    pub fn set_carry(&mut self, val: bool)
        ensures
            *final(self) == (Cpu { flag_c: val, ..*old(self) }),
    {
        self.flag_c = val;
    }

    /// ADD: A += val. Zero from the result, Subtract cleared, HalfCarry from
    /// the carry out of bit 3, Carry from the carry out of bit 7.
    pub fn add(&mut self, val: u8)
        ensures
            *final(self) == alu_add(*old(self), val),
    {
        let pa = self.a;
        let sum: u16 = pa as u16 + val as u16;
        self.a = (sum % 256) as u8;
        self.flag_z = sum % 256 == 0;
        self.flag_n = false;
        self.flag_h = (pa % 16) + (val % 16) > 15;
        self.flag_c = sum > 255;
    }

    /// ADC: A += val + Carry; the old Carry is folded into the operand once.
    pub fn adc(&mut self, val: u8)
        ensures
            *final(self) == alu_adc(*old(self), val),
    {
        let cin: u8 = if self.flag_c { 1 } else { 0 };
        let pa = self.a;
        let sum: u16 = pa as u16 + val as u16 + cin as u16;
        self.a = (sum % 256) as u8;
        self.flag_z = sum % 256 == 0;
        self.flag_n = false;
        self.flag_h = (pa % 16) + (val % 16) + cin > 15;
        self.flag_c = sum > 255;
    }

    /// SUB: A -= val. Zero from the result, Subtract set, HalfCarry from the
    /// borrow into bit 4, Carry from the borrow into bit 8.
    pub fn sub(&mut self, val: u8)
        ensures
            *final(self) == alu_sub(*old(self), val),
    {
        let pa = self.a;
        let diff: u16 = (pa as u16 + 256) - val as u16;
        self.a = (diff % 256) as u8;
        self.flag_z = pa == val;
        self.flag_n = true;
        self.flag_h = (pa % 16) < (val % 16);
        self.flag_c = pa < val;
    }

    /// SBC: A -= val + Carry; the old Carry is folded into the operand once.
    pub fn sbc(&mut self, val: u8)
        ensures
            *final(self) == alu_sbc(*old(self), val),
    {
        let cin: u8 = if self.flag_c { 1 } else { 0 };
        let pa = self.a;
        let diff: u16 = (pa as u16 + 512) - val as u16 - cin as u16;
        self.a = (diff % 256) as u8;
        self.flag_z = diff % 256 == 0;
        self.flag_n = true;
        self.flag_h = (pa % 16) < (val % 16) + cin;
        self.flag_c = (pa as u16) < val as u16 + cin as u16;
    }

    /// AND: A &= val; HalfCarry set, Carry cleared.
    pub fn and(&mut self, val: u8)
        ensures
            *final(self) == alu_and(*old(self), val),
    {
        self.a = self.a & val;
        self.flag_z = self.a == 0;
        self.flag_n = false;
        self.flag_h = true;
        self.flag_c = false;
    }

    /// XOR: A ^= val; the other flags cleared.
    pub fn xor(&mut self, val: u8)
        ensures
            *final(self) == alu_xor(*old(self), val),
    {
        self.a = self.a ^ val;
        self.flag_z = self.a == 0;
        self.flag_n = false;
        self.flag_h = false;
        self.flag_c = false;
    }

    /// OR: A |= val; the other flags cleared.
    pub fn or(&mut self, val: u8)
        ensures
            *final(self) == alu_or(*old(self), val),
    {
        self.a = self.a | val;
        self.flag_z = self.a == 0;
        self.flag_n = false;
        self.flag_h = false;
        self.flag_c = false;
    }

    /// CP: the flags of SUB without storing the difference.
    pub fn cp(&mut self, val: u8)
        ensures
            *final(self) == alu_cp(*old(self), val),
    {
        self.flag_z = self.a == val;
        self.flag_n = true;
        self.flag_h = (self.a % 16) < (val % 16);
        self.flag_c = self.a < val;
    }

    /// INC on a byte: Carry untouched, HalfCarry on a low-nibble wrap.
    pub fn inc(&mut self, val: u8) -> (r: u8)
        ensures
            r == inc_val(val),
            *final(self) == inc_flags(*old(self), val),
    {
        let newval: u8 = if val == 255 { 0 } else { val + 1 };
        self.flag_z = newval == 0;
        self.flag_n = false;
        self.flag_h = newval % 16 == 0;
        newval
    }

    /// INC on a register pair: wraps and leaves every flag untouched.
    pub fn inc16(&mut self, val: u16) -> (r: u16)
        ensures
            r == ((val + 1) % 65536) as u16,
            *final(self) == *old(self),
    {
        if val == 0xffff { 0 } else { val + 1 }
    }

    /// DEC on a byte: Carry untouched, HalfCarry on a low-nibble borrow.
    pub fn dec(&mut self, val: u8) -> (r: u8)
        ensures
            r == dec_val(val),
            *final(self) == dec_flags(*old(self), val),
    {
        let newval: u8 = if val == 0 { 255 } else { val - 1 };
        self.flag_z = newval == 0;
        self.flag_n = true;
        self.flag_h = newval % 16 == 15;
        newval
    }

    /// DEC on a register pair: wraps and leaves every flag untouched.
    pub fn dec16(&mut self, val: u16) -> (r: u16)
        ensures
            r == ((val - 1) % 65536) as u16,
            *final(self) == *old(self),
    {
        if val == 0 { 0xffff } else { val - 1 }
    }

    /// RLC: rotate left; bit 7 goes to both bit 0 and Carry.
    pub fn rlc(&mut self, val: u8) -> (r: u8)
        ensures
            r == (val % 128) * 2 + (if val >= 128 { 1int } else { 0int }),
            *final(self) == (Cpu {
                flag_z: val == 0,
                flag_n: false,
                flag_h: false,
                flag_c: val >= 128,
                ..*old(self)
            }),
    {
        let newval: u8 = (val % 128) * 2 + (if val >= 128 { 1 } else { 0 });
        self.flag_c = val >= 128;
        self.flag_z = newval == 0;
        self.flag_n = false;
        self.flag_h = false;
        newval
    }

    /// RL: rotate left through Carry.
    pub fn rl(&mut self, val: u8) -> (r: u8)
        ensures
            r == (val % 128) * 2 + (if old(self).flag_c { 1int } else { 0int }),
            *final(self) == (Cpu {
                flag_z: (val % 128) * 2 + (if old(self).flag_c { 1int } else { 0int }) == 0,
                flag_n: false,
                flag_h: false,
                flag_c: val >= 128,
                ..*old(self)
            }),
    {
        let newval: u8 = (val % 128) * 2 + (if self.flag_c { 1 } else { 0 });
        self.flag_z = newval == 0;
        self.flag_n = false;
        self.flag_h = false;
        self.flag_c = val >= 128;
        newval
    }

    /// SLA: shift left; bit 0 becomes zero.
    pub fn sla(&mut self, val: u8) -> (r: u8)
        ensures
            r == (val % 128) * 2,
            *final(self) == (Cpu {
                flag_z: val % 128 == 0,
                flag_n: false,
                flag_h: false,
                flag_c: val >= 128,
                ..*old(self)
            }),
    {
        let newval: u8 = (val % 128) * 2;
        self.flag_z = newval == 0;
        self.flag_n = false;
        self.flag_h = false;
        self.flag_c = val >= 128;
        newval
    }

    /// SRA: shift right keeping bit 7; bit 0 goes to Carry.
    pub fn sra(&mut self, val: u8) -> (r: u8)
        ensures
            r == val / 2 + (if val >= 128 { 128int } else { 0int }),
            *final(self) == (Cpu {
                flag_z: val / 2 + (if val >= 128 { 128int } else { 0int }) == 0,
                flag_n: false,
                flag_h: false,
                flag_c: val % 2 == 1,
                ..*old(self)
            }),
    {
        let newval: u8 = val / 2 + (if val >= 128 { 128 } else { 0 });
        self.flag_z = newval == 0;
        self.flag_n = false;
        self.flag_h = false;
        self.flag_c = val % 2 == 1;
        newval
    }

    /// SRL: shift right; bit 7 becomes zero, bit 0 goes to Carry.
    pub fn srl(&mut self, val: u8) -> (r: u8)
        ensures
            r == val / 2,
            *final(self) == (Cpu {
                flag_z: val / 2 == 0,
                flag_n: false,
                flag_h: false,
                flag_c: val % 2 == 1,
                ..*old(self)
            }),
    {
        let newval: u8 = val / 2;
        self.flag_z = newval == 0;
        self.flag_n = false;
        self.flag_h = false;
        self.flag_c = val % 2 == 1;
        newval
    }

    /// RRC: rotate right; bit 0 goes to both bit 7 and Carry.
    pub fn rrc(&mut self, val: u8) -> (r: u8)
        ensures
            r == val / 2 + (if val % 2 == 1 { 128int } else { 0int }),
            *final(self) == (Cpu {
                flag_z: val == 0,
                flag_n: false,
                flag_h: false,
                flag_c: val % 2 == 1,
                ..*old(self)
            }),
    {
        let newval: u8 = val / 2 + (if val % 2 == 1 { 128 } else { 0 });
        self.flag_c = val % 2 == 1;
        self.flag_n = false;
        self.flag_h = false;
        self.flag_z = newval == 0;
        newval
    }

    /// RR: rotate right through Carry.
    pub fn rr(&mut self, val: u8) -> (r: u8)
        ensures
            r == val / 2 + (if old(self).flag_c { 128int } else { 0int }),
            *final(self) == (Cpu {
                flag_z: val / 2 + (if old(self).flag_c { 128int } else { 0int }) == 0,
                flag_n: false,
                flag_h: false,
                flag_c: val % 2 == 1,
                ..*old(self)
            }),
    {
        let newval: u8 = val / 2 + (if self.flag_c { 128 } else { 0 });
        self.flag_c = val % 2 == 1;
        self.flag_n = false;
        self.flag_h = false;
        self.flag_z = newval == 0;
        newval
    }

    /// SWAP: exchange the two nibbles; the other flags cleared.
    pub fn swap(&mut self, val: u8) -> (r: u8)
        ensures
            r == (val % 16) * 16 + val / 16,
            *final(self) == (Cpu {
                flag_z: val == 0,
                flag_n: false,
                flag_h: false,
                flag_c: false,
                ..*old(self)
            }),
    {
        let top: u8 = val / 16;
        let bottom: u8 = val % 16;
        self.flag_z = top == 0 && bottom == 0;
        self.flag_n = false;
        self.flag_h = false;
        self.flag_c = false;
        bottom * 16 + top
    }
}


/// The flag invariant: whatever the four flags are, the F byte they pack
/// into has its low four bits zero. Every reachable F value has this
/// shape, because F is only ever materialised through `flags_to_byte`.
pub proof fn lemma_flag_low_bits_zero(z: bool, n: bool, h: bool, c: bool)
    ensures
        flags_to_byte(z, n, h, c) % 16 == 0,
{
}

/// The two decimal digits packed in `v`, as the number they write.
pub open spec fn bcd_value(v: u8) -> int {
    (v as int / 16) * 10 + v as int % 16
}

/// A packed-BCD byte: both nibbles are decimal digits.
pub open spec fn is_bcd(v: u8) -> bool {
    v as int % 16 <= 9 && v as int / 16 <= 9
}

proof fn lemma_nibble_split(q: int, r: int)
    requires
        0 <= q < 16,
        0 <= r < 16,
    ensures
        (16 * q + r) % 16 == r,
        (16 * q + r) / 16 == q,
{
}

proof fn lemma_daa_sub_borrow_both(a: u8, b: u8)
    requires
        is_bcd(a),
        is_bcd(b),
        a < b,
        a % 16 < b % 16,
    ensures
        is_bcd(spec_daa(wrap8(a - b), true, true, true).0),
        bcd_value(spec_daa(wrap8(a - b), true, true, true).0) == bcd_value(a) - bcd_value(b)
            + 100,
{
    let ah = a as int / 16;
    let al = a as int % 16;
    let bh = b as int / 16;
    let bl = b as int % 16;
    assert(a == 16 * ah + al && b == 16 * bh + bl);
    // Both nibbles borrowed: the correction subtracts 0x66.
    assert(wrap8(a - b) == 16 * (ah - bh + 15) + (al - bl + 16)) by {
        lemma_nibble_split(ah - bh + 15, al - bl + 16);
    }
    assert(spec_daa(wrap8(a - b), true, true, true).0 == 16 * (ah - bh + 9) + (al - bl + 10));
    lemma_nibble_split(ah - bh + 9, al - bl + 10);
}

proof fn lemma_daa_sub_borrow_high(a: u8, b: u8)
    requires
        is_bcd(a),
        is_bcd(b),
        a < b,
        a % 16 >= b % 16,
    ensures
        is_bcd(spec_daa(wrap8(a - b), true, false, true).0),
        bcd_value(spec_daa(wrap8(a - b), true, false, true).0) == bcd_value(a) - bcd_value(b)
            + 100,
{
    let ah = a as int / 16;
    let al = a as int % 16;
    let bh = b as int / 16;
    let bl = b as int % 16;
    assert(a == 16 * ah + al && b == 16 * bh + bl);
    assert(ah < bh);
    // Only the high nibble borrowed: the correction subtracts 0x60.
    assert(wrap8(a - b) == 16 * (ah - bh + 16) + (al - bl)) by {
        lemma_nibble_split(ah - bh + 16, al - bl);
    }
    assert(spec_daa(wrap8(a - b), true, false, true).0 == 16 * (ah - bh + 10) + (al - bl));
    lemma_nibble_split(ah - bh + 10, al - bl);
}

proof fn lemma_daa_sub_borrow_low(a: u8, b: u8)
    requires
        is_bcd(a),
        is_bcd(b),
        a >= b,
        a % 16 < b % 16,
    ensures
        is_bcd(spec_daa(wrap8(a - b), true, true, false).0),
        bcd_value(spec_daa(wrap8(a - b), true, true, false).0) == bcd_value(a) - bcd_value(b),
{
    let ah = a as int / 16;
    let al = a as int % 16;
    let bh = b as int / 16;
    let bl = b as int % 16;
    assert(a == 16 * ah + al && b == 16 * bh + bl);
    assert(ah > bh);
    // Only the low nibble borrowed: the correction subtracts 0x06.
    assert(wrap8(a - b) == 16 * (ah - bh - 1) + (al - bl + 16)) by {
        lemma_nibble_split(ah - bh - 1, al - bl + 16);
    }
    assert(spec_daa(wrap8(a - b), true, true, false).0 == 16 * (ah - bh - 1) + (al - bl + 10));
    lemma_nibble_split(ah - bh - 1, al - bl + 10);
}

proof fn lemma_daa_sub_no_borrow(a: u8, b: u8)
    requires
        is_bcd(a),
        is_bcd(b),
        a >= b,
        a % 16 >= b % 16,
    ensures
        is_bcd(spec_daa(wrap8(a - b), true, false, false).0),
        bcd_value(spec_daa(wrap8(a - b), true, false, false).0) == bcd_value(a) - bcd_value(b),
{
    let ah = a as int / 16;
    let al = a as int % 16;
    let bh = b as int / 16;
    let bl = b as int % 16;
    assert(a == 16 * ah + al && b == 16 * bh + bl);
    // No borrow: both nibbles are already valid decimal digits.
    assert(wrap8(a - b) == 16 * (ah - bh) + (al - bl)) by {
        lemma_nibble_split(ah - bh, al - bl);
    }
    assert(spec_daa(wrap8(a - b), true, false, false).0 == wrap8(a - b));
    lemma_nibble_split(ah - bh, al - bl);
}

/// DAA undoes binary subtraction into decimal form: subtracting one
/// packed-BCD byte from another leaves a difference whose nibbles may be
/// invalid, with Subtract set and the borrow flags of SUB; the correction
/// then yields exactly the packed-BCD encoding of the decimal difference
/// modulo 100. In particular the corrected accumulator is at most 0x99.
pub proof fn lemma_daa_corrects_bcd_sub(a: u8, b: u8)
    requires
        is_bcd(a),
        is_bcd(b),
    ensures
        ({
            let corrected = spec_daa(wrap8(a - b), true, a % 16 < b % 16, a < b).0;
            &&& is_bcd(corrected)
            &&& bcd_value(corrected) == (bcd_value(a) - bcd_value(b)) % 100
        }),
{
    if a < b {
        assert(bcd_value(a) < bcd_value(b));
        if a % 16 < b % 16 {
            lemma_daa_sub_borrow_both(a, b);
        } else {
            lemma_daa_sub_borrow_high(a, b);
        }
        assert((bcd_value(a) - bcd_value(b)) % 100 == bcd_value(a) - bcd_value(b) + 100);
    } else {
        assert(bcd_value(a) >= bcd_value(b));
        if a % 16 < b % 16 {
            lemma_daa_sub_borrow_low(a, b);
        } else {
            lemma_daa_sub_no_borrow(a, b);
        }
        assert((bcd_value(a) - bcd_value(b)) % 100 == bcd_value(a) - bcd_value(b));
    }
}

/// `x` reduced modulo 2^16; PC and SP arithmetic wraps this way.
pub open spec fn wrap16(x: int) -> u16 {
    (x % 65536) as u16
}

/// `x` reduced modulo 2^8.
pub open spec fn wrap8(x: int) -> u8 {
    (x % 256) as u8
}

/// A signed 8-bit displacement as a 16-bit two's-complement value.
pub open spec fn spec_sign_ext(d: u8) -> u16 {
    if d < 128 {
        d as u16
    } else {
        (d + 0xff00) as u16
    }
}

/// True for every opcode the primary decode table defines; the eleven
/// holes in the table are fatal to execution.
pub open spec fn spec_opcode_defined(op: u8) -> bool {
    !(op == 0xd3 || op == 0xdb || op == 0xdd || op == 0xe3 || op == 0xe4 || op == 0xeb
        || op == 0xec || op == 0xed || op == 0xf4 || op == 0xfc || op == 0xfd)
}

/// The eight opcodes that increment or decrement a 16-bit register pair
/// or SP; none of them touches any flag.
pub open spec fn is_inc_dec_16(op: u8) -> bool {
    op == 0x03 || op == 0x13 || op == 0x23 || op == 0x33 || op == 0x0b || op == 0x1b || op
        == 0x2b || op == 0x3b
}

/// The interrupt the service check will take, if any: the highest-priority
/// source that is enabled, requested and gated in, with its vector.
/// Priority runs VBlank, LCD status, Timer, Serial, Joypad.
pub open spec fn pending_vector(i: InterruptController) -> Option<(u8, u16)> {
    if !i.master_enable {
        None
    } else if bit_set(i.enable, 1) && bit_set(i.flag, 1) {
        Some((1u8, 0x40u16))
    } else if bit_set(i.enable, 2) && bit_set(i.flag, 2) {
        Some((2u8, 0x48u16))
    } else if bit_set(i.enable, 4) && bit_set(i.flag, 4) {
        Some((4u8, 0x50u16))
    } else if bit_set(i.enable, 8) && bit_set(i.flag, 8) {
        Some((8u8, 0x58u16))
    } else if bit_set(i.enable, 16) && bit_set(i.flag, 16) {
        Some((16u8, 0x60u16))
    } else {
        None
    }
}

/// The CPU after one interrupt service: out of HALT, at the vector, with
/// the return address pushed and 20 cycles charged.
pub open spec fn serviced_cpu(c: Cpu, vector: u16) -> Cpu {
    Cpu {
        halt: false,
        pc: vector,
        sp: wrap16(c.sp - 2),
        cycles: (c.cycles + 20) as u64,
        ..c
    }
}

/// The memory after one interrupt service of `source`: IME cleared, the
/// source's request bit cleared, and the return address pushed at SP.
pub open spec fn serviced_mem(m: MemState, source: u8, c: Cpu) -> MemState {
    let cleared = MemState {
        ints: InterruptController {
            master_enable: false,
            flag: without_bit(m.ints.flag, source),
            enable: m.ints.enable,
        },
        ..m
    };
    spec_write(
        spec_write(cleared, wrap16(c.sp - 1), (c.pc as int / 256) as u8),
        wrap16(c.sp - 2),
        (c.pc as int % 256) as u8,
    )
}

/// The BCD correction DAA applies: the corrected accumulator and the new
/// HalfCarry and Carry flags, decided by the Subtract, HalfCarry and Carry
/// flags the prior operation left behind.
pub open spec fn spec_daa(a: u8, n: bool, h: bool, c: bool) -> (u8, bool, bool) {
    if !n {
        let c1 = c || a > 0x99;
        let a1 = if c1 {
            wrap8(a + 0x60)
        } else {
            a
        };
        let fix_low = h || a1 % 16 > 9;
        let a2 = if fix_low {
            wrap8(a1 + 0x06)
        } else {
            a1
        };
        let h2 = if fix_low {
            false
        } else {
            h
        };
        (a2, h2, c1)
    } else {
        if c && h {
            (wrap8(a + 0x9a), false, c)
        } else if c {
            (wrap8(a + 0xa0), h, c)
        } else if h {
            (wrap8(a + 0xfa), false, c)
        } else {
            (a, h, c)
        }
    }
}


/// The register file read by CB-operand index: B, C, D, E, H, L, then A.
pub open spec fn reg8(c: Cpu, idx: u8) -> u8 {
    if idx == 0 {
        c.b
    } else if idx == 1 {
        c.c
    } else if idx == 2 {
        c.d
    } else if idx == 3 {
        c.e
    } else if idx == 4 {
        c.h
    } else if idx == 5 {
        c.l
    } else {
        c.a
    }
}

/// The register file written by CB-operand index.
pub open spec fn set_reg8(c: Cpu, idx: u8, v: u8) -> Cpu {
    if idx == 0 {
        Cpu { b: v, ..c }
    } else if idx == 1 {
        Cpu { c: v, ..c }
    } else if idx == 2 {
        Cpu { d: v, ..c }
    } else if idx == 3 {
        Cpu { e: v, ..c }
    } else if idx == 4 {
        Cpu { h: v, ..c }
    } else if idx == 5 {
        Cpu { l: v, ..c }
    } else {
        Cpu { a: v, ..c }
    }
}

pub open spec fn bc16(c: Cpu) -> u16 {
    (c.b * 256 + c.c) as u16
}

pub open spec fn de16(c: Cpu) -> u16 {
    (c.d * 256 + c.e) as u16
}

pub open spec fn hl16(c: Cpu) -> u16 {
    (c.h * 256 + c.l) as u16
}

pub open spec fn af16(c: Cpu) -> u16 {
    (c.a * 256 + flags_to_byte(c.flag_z, c.flag_n, c.flag_h, c.flag_c)) as u16
}

pub open spec fn with_bc(c: Cpu, v: u16) -> Cpu {
    Cpu { b: (v as int / 256) as u8, c: (v as int % 256) as u8, ..c }
}

pub open spec fn with_de(c: Cpu, v: u16) -> Cpu {
    Cpu { d: (v as int / 256) as u8, e: (v as int % 256) as u8, ..c }
}

pub open spec fn with_hl(c: Cpu, v: u16) -> Cpu {
    Cpu { h: (v as int / 256) as u8, l: (v as int % 256) as u8, ..c }
}

pub open spec fn with_af(c: Cpu, v: u16) -> Cpu {
    Cpu {
        a: (v as int / 256) as u8,
        flag_z: v as int % 256 / 128 % 2 == 1,
        flag_n: v as int % 256 / 64 % 2 == 1,
        flag_h: v as int % 256 / 32 % 2 == 1,
        flag_c: v as int % 256 / 16 % 2 == 1,
        ..c
    }
}

/// The instruction byte after the opcode.
pub open spec fn imm8(c: Cpu, m: MemState) -> u8 {
    spec_read(m, wrap16(c.pc + 1))
}

/// The little-endian 16-bit immediate after the opcode.
pub open spec fn imm16(c: Cpu, m: MemState) -> u16 {
    (spec_read(m, wrap16(c.pc + 1)) + spec_read(m, wrap16(c.pc + 2)) * 256) as u16
}

/// PC advanced by an instruction length and the cycle counter charged.
pub open spec fn bump(c: Cpu, dpc: int, dcyc: int) -> Cpu {
    Cpu { pc: wrap16(c.pc + dpc), cycles: (c.cycles + dcyc) as u64, ..c }
}

/// The value popped at SP, low byte first.
pub open spec fn pop_val(c: Cpu, m: MemState) -> u16 {
    (spec_read(m, c.sp) + spec_read(m, wrap16(c.sp + 1)) * 256) as u16
}

/// Memory after pushing `v` at SP: high byte at SP-1, low byte at SP-2.
pub open spec fn push_mem(m: MemState, c: Cpu, v: u16) -> MemState {
    spec_write(
        spec_write(m, wrap16(c.sp - 1), (v as int / 256) as u8),
        wrap16(c.sp - 2),
        (v as int % 256) as u8,
    )
}

pub open spec fn alu_add(c: Cpu, v: u8) -> Cpu {
    Cpu {
        a: ((c.a + v) % 256) as u8,
        flag_z: (c.a + v) % 256 == 0,
        flag_n: false,
        flag_h: c.a % 16 + v % 16 > 15,
        flag_c: c.a + v > 255,
        ..c
    }
}

pub open spec fn alu_adc(c: Cpu, v: u8) -> Cpu {
    let cin: int = if c.flag_c {
        1
    } else {
        0
    };
    Cpu {
        a: ((c.a + v + cin) % 256) as u8,
        flag_z: (c.a + v + cin) % 256 == 0,
        flag_n: false,
        flag_h: c.a % 16 + v % 16 + cin > 15,
        flag_c: c.a + v + cin > 255,
        ..c
    }
}

pub open spec fn alu_sub(c: Cpu, v: u8) -> Cpu {
    Cpu {
        a: ((c.a - v) % 256) as u8,
        flag_z: c.a == v,
        flag_n: true,
        flag_h: c.a % 16 < v % 16,
        flag_c: c.a < v,
        ..c
    }
}

pub open spec fn alu_sbc(c: Cpu, v: u8) -> Cpu {
    let cin: int = if c.flag_c {
        1
    } else {
        0
    };
    Cpu {
        a: ((c.a - v - cin) % 256) as u8,
        flag_z: (c.a - v - cin) % 256 == 0,
        flag_n: true,
        flag_h: c.a % 16 < v % 16 + cin,
        flag_c: c.a < v + cin,
        ..c
    }
}

pub open spec fn alu_and(c: Cpu, v: u8) -> Cpu {
    Cpu {
        a: (c.a & v) as u8,
        flag_z: (c.a & v) == 0,
        flag_n: false,
        flag_h: true,
        flag_c: false,
        ..c
    }
}

pub open spec fn alu_xor(c: Cpu, v: u8) -> Cpu {
    Cpu {
        a: (c.a ^ v) as u8,
        flag_z: (c.a ^ v) == 0,
        flag_n: false,
        flag_h: false,
        flag_c: false,
        ..c
    }
}

pub open spec fn alu_or(c: Cpu, v: u8) -> Cpu {
    Cpu {
        a: (c.a | v) as u8,
        flag_z: (c.a | v) == 0,
        flag_n: false,
        flag_h: false,
        flag_c: false,
        ..c
    }
}

pub open spec fn alu_cp(c: Cpu, v: u8) -> Cpu {
    Cpu {
        flag_z: c.a == v,
        flag_n: true,
        flag_h: c.a % 16 < v % 16,
        flag_c: c.a < v,
        ..c
    }
}

/// One 8-bit ALU family member, by its row in the primary table.
pub open spec fn alu_apply(g: u8, c: Cpu, v: u8) -> Cpu {
    if g == 0 {
        alu_add(c, v)
    } else if g == 1 {
        alu_adc(c, v)
    } else if g == 2 {
        alu_sub(c, v)
    } else if g == 3 {
        alu_sbc(c, v)
    } else if g == 4 {
        alu_and(c, v)
    } else if g == 5 {
        alu_xor(c, v)
    } else if g == 6 {
        alu_or(c, v)
    } else {
        alu_cp(c, v)
    }
}

pub open spec fn inc_val(v: u8) -> u8 {
    ((v + 1) % 256) as u8
}

pub open spec fn inc_flags(c: Cpu, v: u8) -> Cpu {
    Cpu { flag_z: (v + 1) % 256 == 0, flag_n: false, flag_h: v % 16 == 15, ..c }
}

pub open spec fn dec_val(v: u8) -> u8 {
    ((v - 1) % 256) as u8
}

pub open spec fn dec_flags(c: Cpu, v: u8) -> Cpu {
    Cpu { flag_z: v == 1, flag_n: true, flag_h: v % 16 == 0, ..c }
}

pub open spec fn rlc_val(v: u8) -> u8 {
    ((v % 128) * 2 + (if v >= 128 {
        1int
    } else {
        0int
    })) as u8
}

pub open spec fn rrc_val(v: u8) -> u8 {
    (v / 2 + (if v % 2 == 1 {
        128int
    } else {
        0int
    })) as u8
}

pub open spec fn rl_val(c: Cpu, v: u8) -> u8 {
    ((v % 128) * 2 + (if c.flag_c {
        1int
    } else {
        0int
    })) as u8
}

pub open spec fn rr_val(c: Cpu, v: u8) -> u8 {
    (v / 2 + (if c.flag_c {
        128int
    } else {
        0int
    })) as u8
}

/// The rotate/shift/swap family of the CB table: the new operand value and
/// the flags it leaves.
pub open spec fn cb_rot(kind: u8, c: Cpu, v: u8) -> (Cpu, u8) {
    if kind == 0 {
        (Cpu { flag_z: v == 0, flag_n: false, flag_h: false, flag_c: v >= 128, ..c }, rlc_val(v))
    } else if kind == 1 {
        (Cpu { flag_z: v == 0, flag_n: false, flag_h: false, flag_c: v % 2 == 1, ..c }, rrc_val(v))
    } else if kind == 2 {
        (
            Cpu { flag_z: rl_val(c, v) == 0, flag_n: false, flag_h: false, flag_c: v >= 128, ..c },
            rl_val(c, v),
        )
    } else if kind == 3 {
        (
            Cpu { flag_z: rr_val(c, v) == 0, flag_n: false, flag_h: false, flag_c: v % 2 == 1, ..c },
            rr_val(c, v),
        )
    } else if kind == 4 {
        (
            Cpu { flag_z: v % 128 == 0, flag_n: false, flag_h: false, flag_c: v >= 128, ..c },
            ((v % 128) * 2) as u8,
        )
    } else if kind == 5 {
        (
            Cpu {
                flag_z: v / 2 + (if v >= 128 {
                    128int
                } else {
                    0int
                }) == 0,
                flag_n: false,
                flag_h: false,
                flag_c: v % 2 == 1,
                ..c
            },
            (v / 2 + (if v >= 128 {
                128int
            } else {
                0int
            })) as u8,
        )
    } else if kind == 6 {
        (
            Cpu { flag_z: v == 0, flag_n: false, flag_h: false, flag_c: false, ..c },
            ((v % 16) * 16 + v / 16) as u8,
        )
    } else {
        (
            Cpu { flag_z: v / 2 == 0, flag_n: false, flag_h: false, flag_c: v % 2 == 1, ..c },
            (v / 2) as u8,
        )
    }
}

/// One CB-prefixed opcode: the state it leaves and its cycle cost, before
/// PC advances over the two instruction bytes.
pub open spec fn spec_cb(c: Cpu, m: MemState) -> (Cpu, MemState, u64) {
    let op = spec_read(m, wrap16(c.pc + 1));
    let idx = op % 8;
    let kind = op / 8;
    let v = if idx == 6 {
        spec_read(m, hl16(c))
    } else {
        reg8(c, idx)
    };
    let cost: u64 = if idx == 6 {
        16
    } else {
        8
    };
    if kind < 8 {
        let rot = cb_rot(kind, c, v);
        if idx == 6 {
            (rot.0, spec_write(m, hl16(c), rot.1), cost)
        } else {
            (set_reg8(rot.0, idx, rot.1), m, cost)
        }
    } else if kind < 16 {
        (
            Cpu {
                flag_z: !bit_set(v, spec_pow2((kind - 8) as u8)),
                flag_n: false,
                flag_h: true,
                ..c
            },
            m,
            8,
        )
    } else if kind < 24 {
        let nv = without_bit(v, spec_pow2((kind - 16) as u8));
        if idx == 6 {
            (c, spec_write(m, hl16(c), nv), cost)
        } else {
            (set_reg8(c, idx, nv), m, cost)
        }
    } else {
        let nv = with_bit(v, spec_pow2((kind - 24) as u8));
        if idx == 6 {
            (c, spec_write(m, hl16(c), nv), cost)
        } else {
            (set_reg8(c, idx, nv), m, cost)
        }
    }
}

pub open spec fn addhl(c: Cpu, v: u16) -> Cpu {
    Cpu {
        h: (wrap16(c.h * 256 + c.l + v) as int / 256) as u8,
        l: (wrap16(c.h * 256 + c.l + v) as int % 256) as u8,
        flag_n: false,
        flag_h: (c.h * 256 + c.l) % 4096 + v % 4096 > 4095,
        flag_c: c.h * 256 + c.l + v > 65535,
        ..c
    }
}

/// Opcodes 0x00..0x0f: loads and arithmetic over BC, RLCA and RRCA,
/// and the SP store.
pub open spec fn step_row0(op: u8, c: Cpu, m: MemState) -> (Cpu, MemState) {
    if op == 0x00 {
        (bump(c, 1, 4), m)
    } else if op == 0x01 {
        (bump(with_bc(c, imm16(c, m)), 3, 12), m)
    } else if op == 0x02 {
        (bump(c, 1, 8), spec_write(m, bc16(c), c.a))
    } else if op == 0x03 {
        (bump(with_bc(c, wrap16(bc16(c) + 1)), 1, 8), m)
    } else if op == 0x04 {
        (bump((Cpu { b: inc_val(c.b), ..inc_flags(c, c.b) }), 1, 4), m)
    } else if op == 0x05 {
        (bump((Cpu { b: dec_val(c.b), ..dec_flags(c, c.b) }), 1, 4), m)
    } else if op == 0x06 {
        (bump((Cpu { b: imm8(c, m), ..c }), 2, 8), m)
    } else if op == 0x07 {
        (bump((Cpu { a: rlc_val(c.a), flag_z: false, flag_n: false, flag_h: false, flag_c: c.a >= 128, ..c }), 1, 4), m)
    } else if op == 0x08 {
        (bump(c, 3, 20), spec_write(spec_write(m, wrap16(imm16(c, m) + 1), (c.sp as int / 256) as u8), imm16(c, m), (c.sp as int % 256) as u8))
    } else if op == 0x09 {
        (bump(addhl(c, bc16(c)), 1, 8), m)
    } else if op == 0x0a {
        (bump((Cpu { a: spec_read(m, bc16(c)), ..c }), 1, 8), m)
    } else if op == 0x0b {
        (bump(with_bc(c, wrap16(bc16(c) - 1)), 1, 8), m)
    } else if op == 0x0c {
        (bump((Cpu { c: inc_val(c.c), ..inc_flags(c, c.c) }), 1, 4), m)
    } else if op == 0x0d {
        (bump((Cpu { c: dec_val(c.c), ..dec_flags(c, c.c) }), 1, 4), m)
    } else if op == 0x0e {
        (bump((Cpu { c: imm8(c, m), ..c }), 2, 8), m)
    } else if op == 0x0f {
        (bump((Cpu { a: rrc_val(c.a), flag_z: false, flag_n: false, flag_h: false, flag_c: c.a % 2 == 1, ..c }), 1, 4), m)
    } else {
        (c, m)
    }
}

/// Opcodes 0x10..0x1f: STOP, loads and arithmetic over DE, RLA, RRA
/// and the unconditional relative jump.
pub open spec fn step_row1(op: u8, c: Cpu, m: MemState) -> (Cpu, MemState) {
    if op == 0x10 {
        (bump(c, 2, 4), m)
    } else if op == 0x11 {
        (bump(with_de(c, imm16(c, m)), 3, 12), m)
    } else if op == 0x12 {
        (bump(c, 1, 8), spec_write(m, de16(c), c.a))
    } else if op == 0x13 {
        (bump(with_de(c, wrap16(de16(c) + 1)), 1, 8), m)
    } else if op == 0x14 {
        (bump((Cpu { d: inc_val(c.d), ..inc_flags(c, c.d) }), 1, 4), m)
    } else if op == 0x15 {
        (bump((Cpu { d: dec_val(c.d), ..dec_flags(c, c.d) }), 1, 4), m)
    } else if op == 0x16 {
        (bump((Cpu { d: imm8(c, m), ..c }), 2, 8), m)
    } else if op == 0x17 {
        (bump((Cpu { a: rl_val(c, c.a), flag_z: false, flag_n: false, flag_h: false, flag_c: c.a >= 128, ..c }), 1, 4), m)
    } else if op == 0x18 {
        (Cpu { pc: wrap16(wrap16(c.pc + spec_sign_ext(imm8(c, m))) + 2), cycles: (c.cycles + 12) as u64, ..c }, m)
    } else if op == 0x19 {
        (bump(addhl(c, de16(c)), 1, 8), m)
    } else if op == 0x1a {
        (bump((Cpu { a: spec_read(m, de16(c)), ..c }), 1, 8), m)
    } else if op == 0x1b {
        (bump(with_de(c, wrap16(de16(c) - 1)), 1, 8), m)
    } else if op == 0x1c {
        (bump((Cpu { e: inc_val(c.e), ..inc_flags(c, c.e) }), 1, 4), m)
    } else if op == 0x1d {
        (bump((Cpu { e: dec_val(c.e), ..dec_flags(c, c.e) }), 1, 4), m)
    } else if op == 0x1e {
        (bump((Cpu { e: imm8(c, m), ..c }), 2, 8), m)
    } else if op == 0x1f {
        (bump((Cpu { a: rr_val(c, c.a), flag_z: false, flag_n: false, flag_h: false, flag_c: c.a % 2 == 1, ..c }), 1, 4), m)
    } else {
        (c, m)
    }
}

/// Opcodes 0x20..0x2f: loads and arithmetic over HL, the post-inc and
/// post-dec loads, DAA, CPL and two conditional relative jumps.
pub open spec fn step_row2(op: u8, c: Cpu, m: MemState) -> (Cpu, MemState) {
    if op == 0x20 {
        if !c.flag_z {
            (Cpu { pc: wrap16(wrap16(c.pc + spec_sign_ext(imm8(c, m))) + 2), cycles: (c.cycles + 12) as u64, ..c }, m)
        } else {
            (bump(c, 2, 8), m)
        }
    } else if op == 0x21 {
        (bump(with_hl(c, imm16(c, m)), 3, 12), m)
    } else if op == 0x22 {
        (bump(with_hl(c, wrap16(hl16(c) + 1)), 1, 8), spec_write(m, hl16(c), c.a))
    } else if op == 0x23 {
        (bump(with_hl(c, wrap16(hl16(c) + 1)), 1, 8), m)
    } else if op == 0x24 {
        (bump((Cpu { h: inc_val(c.h), ..inc_flags(c, c.h) }), 1, 4), m)
    } else if op == 0x25 {
        (bump((Cpu { h: dec_val(c.h), ..dec_flags(c, c.h) }), 1, 4), m)
    } else if op == 0x26 {
        (bump((Cpu { h: imm8(c, m), ..c }), 2, 8), m)
    } else if op == 0x27 {
        (bump((Cpu { a: spec_daa(c.a, c.flag_n, c.flag_h, c.flag_c).0, flag_z: spec_daa(c.a, c.flag_n, c.flag_h, c.flag_c).0 == 0, flag_h: spec_daa(c.a, c.flag_n, c.flag_h, c.flag_c).1, flag_c: spec_daa(c.a, c.flag_n, c.flag_h, c.flag_c).2, ..c }), 1, 4), m)
    } else if op == 0x28 {
        if c.flag_z {
            (Cpu { pc: wrap16(wrap16(c.pc + spec_sign_ext(imm8(c, m))) + 2), cycles: (c.cycles + 12) as u64, ..c }, m)
        } else {
            (bump(c, 2, 8), m)
        }
    } else if op == 0x29 {
        (bump(addhl(c, hl16(c)), 1, 8), m)
    } else if op == 0x2a {
        (bump(with_hl((Cpu { a: spec_read(m, hl16(c)), ..c }), wrap16(hl16(c) + 1)), 1, 8), m)
    } else if op == 0x2b {
        (bump(with_hl(c, wrap16(hl16(c) - 1)), 1, 8), m)
    } else if op == 0x2c {
        (bump((Cpu { l: inc_val(c.l), ..inc_flags(c, c.l) }), 1, 4), m)
    } else if op == 0x2d {
        (bump((Cpu { l: dec_val(c.l), ..dec_flags(c, c.l) }), 1, 4), m)
    } else if op == 0x2e {
        (bump((Cpu { l: imm8(c, m), ..c }), 2, 8), m)
    } else if op == 0x2f {
        (bump((Cpu { a: (255 - c.a) as u8, flag_n: true, flag_h: true, ..c }), 1, 4), m)
    } else {
        (c, m)
    }
}

/// Opcodes 0x30..0x3f: loads and arithmetic over SP and through HL,
/// SCF, CCF and the remaining conditional relative jumps.
pub open spec fn step_row3(op: u8, c: Cpu, m: MemState) -> (Cpu, MemState) {
    if op == 0x30 {
        if !c.flag_c {
            (Cpu { pc: wrap16(wrap16(c.pc + spec_sign_ext(imm8(c, m))) + 2), cycles: (c.cycles + 12) as u64, ..c }, m)
        } else {
            (bump(c, 2, 8), m)
        }
    } else if op == 0x31 {
        (bump((Cpu { sp: imm16(c, m), ..c }), 3, 12), m)
    } else if op == 0x32 {
        (bump(with_hl(c, wrap16(hl16(c) - 1)), 1, 8), spec_write(m, hl16(c), c.a))
    } else if op == 0x33 {
        (bump((Cpu { sp: wrap16(c.sp + 1), ..c }), 1, 8), m)
    } else if op == 0x34 {
        (bump(inc_flags(c, spec_read(m, hl16(c))), 1, 12), spec_write(m, hl16(c), inc_val(spec_read(m, hl16(c)))))
    } else if op == 0x35 {
        (bump(dec_flags(c, spec_read(m, hl16(c))), 1, 12), spec_write(m, hl16(c), dec_val(spec_read(m, hl16(c)))))
    } else if op == 0x36 {
        (bump(c, 2, 12), spec_write(m, hl16(c), imm8(c, m)))
    } else if op == 0x37 {
        (bump((Cpu { flag_n: false, flag_h: false, flag_c: true, ..c }), 1, 4), m)
    } else if op == 0x38 {
        if c.flag_c {
            (Cpu { pc: wrap16(wrap16(c.pc + spec_sign_ext(imm8(c, m))) + 2), cycles: (c.cycles + 12) as u64, ..c }, m)
        } else {
            (bump(c, 2, 8), m)
        }
    } else if op == 0x39 {
        (bump(addhl(c, c.sp), 2, 8), m)
    } else if op == 0x3a {
        (bump(with_hl((Cpu { a: spec_read(m, hl16(c)), ..c }), wrap16(hl16(c) - 1)), 1, 8), m)
    } else if op == 0x3b {
        (bump((Cpu { sp: wrap16(c.sp - 1), ..c }), 2, 8), m)
    } else if op == 0x3c {
        (bump((Cpu { a: inc_val(c.a), ..inc_flags(c, c.a) }), 1, 4), m)
    } else if op == 0x3d {
        (bump((Cpu { a: dec_val(c.a), ..dec_flags(c, c.a) }), 1, 4), m)
    } else if op == 0x3e {
        (bump((Cpu { a: imm8(c, m), ..c }), 2, 8), m)
    } else if op == 0x3f {
        (bump((Cpu { flag_n: false, flag_h: false, flag_c: !c.flag_c, ..c }), 1, 4), m)
    } else {
        (c, m)
    }
}

/// The 0x40..0x7f block: register-to-register loads, loads through HL,
/// and HALT.
pub open spec fn step_mov(op: u8, c: Cpu, m: MemState) -> (Cpu, MemState) {
    let t = (op - 0x40) / 8;
    let s = op % 8;
    if op == 0x76 {
        (Cpu { halt: true, pc: wrap16(c.pc + 1), ..c }, m)
    } else if t == 6 {
        (bump(c, 1, 8), spec_write(m, hl16(c), reg8(c, s)))
    } else if s == 6 {
        (bump(set_reg8(c, (t) as u8, spec_read(m, hl16(c))), 1, 8), m)
    } else {
        (bump(set_reg8(c, (t) as u8, reg8(c, s)), 1, 4), m)
    }
}

/// The 0x80..0xbf block: the eight-member ALU family over the eight
/// operand slots.
pub open spec fn step_alu(op: u8, c: Cpu, m: MemState) -> (Cpu, MemState) {
    let g = (op - 0x80) / 8;
    let s = op % 8;
    let v = if s == 6 {
        spec_read(m, hl16(c))
    } else {
        reg8(c, s)
    };
    let cost: int = if s == 6 || op == 0x87 {
        8
    } else {
        4
    };
    (bump(alu_apply((g) as u8, c, v), 1, cost), m)
}

/// The opcodes from 0xc0 up: jumps, calls, returns, the stack, the
/// CB prefix, immediate ALU forms, the high-page loads, and DI/EI.
/// The eleven undefined opcodes are left as no-ops here; `run` never
/// accepts them.
pub open spec fn step_high(op: u8, c: Cpu, m: MemState) -> (Cpu, MemState) {
    if op == 0xc0 {
        if !c.flag_z {
            (Cpu { pc: pop_val(c, m), sp: wrap16(c.sp + 2), cycles: (c.cycles + 20) as u64, ..c }, m)
        } else {
            (bump(c, 1, 8), m)
        }
    } else if op == 0xc1 {
        (bump(with_bc((Cpu { sp: wrap16(c.sp + 2), ..c }), pop_val(c, m)), 1, 12), m)
    } else if op == 0xc2 {
        if !c.flag_z {
            (Cpu { pc: imm16(c, m), cycles: (c.cycles + 16) as u64, ..c }, m)
        } else {
            (bump(c, 3, 12), m)
        }
    } else if op == 0xc3 {
        (Cpu { pc: imm16(c, m), cycles: (c.cycles + 16) as u64, ..c }, m)
    } else if op == 0xc4 {
        if !c.flag_z {
            (Cpu { sp: wrap16(c.sp - 2), pc: imm16(c, m), cycles: (c.cycles + 24) as u64, ..c }, push_mem(m, c, wrap16(c.pc + 3)))
        } else {
            (bump(c, 3, 12), m)
        }
    } else if op == 0xc5 {
        (Cpu { sp: wrap16(c.sp - 2), pc: wrap16(c.pc + 1), cycles: (c.cycles + 16) as u64, ..c }, push_mem(m, c, bc16(c)))
    } else if op == 0xc6 {
        (bump(alu_add(c, imm8(c, m)), 2, 8), m)
    } else if op == 0xc7 {
        (Cpu { sp: wrap16(c.sp - 2), pc: 0x0, cycles: (c.cycles + 16) as u64, ..c }, push_mem(m, c, wrap16(c.pc + 1)))
    } else if op == 0xc8 {
        if c.flag_z {
            (Cpu { pc: pop_val(c, m), sp: wrap16(c.sp + 2), cycles: (c.cycles + 20) as u64, ..c }, m)
        } else {
            (bump(c, 1, 8), m)
        }
    } else if op == 0xc9 {
        (Cpu { pc: pop_val(c, m), sp: wrap16(c.sp + 2), cycles: (c.cycles + 16) as u64, ..c }, m)
    } else if op == 0xca {
        if c.flag_z {
            (Cpu { pc: imm16(c, m), cycles: (c.cycles + 16) as u64, ..c }, m)
        } else {
            (bump(c, 3, 12), m)
        }
    } else if op == 0xcb {
        {
            let r = spec_cb(c, m);
            (Cpu { pc: wrap16(c.pc + 2), cycles: (c.cycles + r.2) as u64, ..r.0 }, r.1)
        }
    } else if op == 0xcc {
        if c.flag_z {
            (Cpu { sp: wrap16(c.sp - 2), pc: imm16(c, m), cycles: (c.cycles + 24) as u64, ..c }, push_mem(m, c, wrap16(c.pc + 3)))
        } else {
            (bump(c, 3, 12), m)
        }
    } else if op == 0xcd {
        (Cpu { sp: wrap16(c.sp - 2), pc: imm16(c, m), cycles: (c.cycles + 24) as u64, ..c }, push_mem(m, c, wrap16(c.pc + 3)))
    } else if op == 0xce {
        (bump(alu_adc(c, imm8(c, m)), 2, 8), m)
    } else if op == 0xcf {
        (Cpu { sp: wrap16(c.sp - 2), pc: 0x8, cycles: (c.cycles + 16) as u64, ..c }, push_mem(m, c, wrap16(c.pc + 1)))
    } else if op == 0xd0 {
        if !c.flag_c {
            (Cpu { pc: pop_val(c, m), sp: wrap16(c.sp + 2), cycles: (c.cycles + 20) as u64, ..c }, m)
        } else {
            (bump(c, 1, 8), m)
        }
    } else if op == 0xd1 {
        (bump(with_de((Cpu { sp: wrap16(c.sp + 2), ..c }), pop_val(c, m)), 1, 12), m)
    } else if op == 0xd2 {
        if !c.flag_c {
            (Cpu { pc: imm16(c, m), cycles: (c.cycles + 16) as u64, ..c }, m)
        } else {
            (bump(c, 3, 12), m)
        }
    } else if op == 0xd4 {
        if !c.flag_c {
            (Cpu { sp: wrap16(c.sp - 2), pc: imm16(c, m), cycles: (c.cycles + 24) as u64, ..c }, push_mem(m, c, wrap16(c.pc + 3)))
        } else {
            (bump(c, 3, 12), m)
        }
    } else if op == 0xd5 {
        (Cpu { sp: wrap16(c.sp - 2), pc: wrap16(c.pc + 1), cycles: (c.cycles + 16) as u64, ..c }, push_mem(m, c, de16(c)))
    } else if op == 0xd6 {
        (bump(alu_sub(c, imm8(c, m)), 2, 8), m)
    } else if op == 0xd7 {
        (Cpu { sp: wrap16(c.sp - 2), pc: 0x10, cycles: (c.cycles + 16) as u64, ..c }, push_mem(m, c, wrap16(c.pc + 1)))
    } else if op == 0xd8 {
        if c.flag_c {
            (Cpu { pc: pop_val(c, m), sp: wrap16(c.sp + 2), cycles: (c.cycles + 20) as u64, ..c }, m)
        } else {
            (bump(c, 1, 8), m)
        }
    } else if op == 0xd9 {
        {
            let m2 = MemState { ints: InterruptController { master_enable: true, ..m.ints }, ..m };
            (Cpu { pc: pop_val(c, m2), sp: wrap16(c.sp + 2), cycles: (c.cycles + 16) as u64, ..c }, m2)
        }
    } else if op == 0xda {
        if c.flag_c {
            (Cpu { pc: imm16(c, m), cycles: (c.cycles + 16) as u64, ..c }, m)
        } else {
            (bump(c, 3, 12), m)
        }
    } else if op == 0xdc {
        if c.flag_c {
            (Cpu { sp: wrap16(c.sp - 2), pc: imm16(c, m), cycles: (c.cycles + 24) as u64, ..c }, push_mem(m, c, wrap16(c.pc + 3)))
        } else {
            (bump(c, 3, 12), m)
        }
    } else if op == 0xde {
        (bump(alu_sbc(c, imm8(c, m)), 2, 8), m)
    } else if op == 0xdf {
        (Cpu { sp: wrap16(c.sp - 2), pc: 0x18, cycles: (c.cycles + 16) as u64, ..c }, push_mem(m, c, wrap16(c.pc + 1)))
    } else if op == 0xe0 {
        (bump(c, 2, 12), spec_write(m, (0xff00 + imm8(c, m)) as u16, c.a))
    } else if op == 0xe1 {
        (bump(with_hl((Cpu { sp: wrap16(c.sp + 2), ..c }), pop_val(c, m)), 1, 12), m)
    } else if op == 0xe2 {
        (bump(c, 1, 8), spec_write(m, (0xff00 + c.c) as u16, c.a))
    } else if op == 0xe5 {
        (Cpu { sp: wrap16(c.sp - 2), pc: wrap16(c.pc + 1), cycles: (c.cycles + 16) as u64, ..c }, push_mem(m, c, hl16(c)))
    } else if op == 0xe6 {
        (bump(alu_and(c, imm8(c, m)), 2, 8), m)
    } else if op == 0xe7 {
        (Cpu { sp: wrap16(c.sp - 2), pc: 0x20, cycles: (c.cycles + 16) as u64, ..c }, push_mem(m, c, wrap16(c.pc + 1)))
    } else if op == 0xe8 {
        (Cpu { sp: wrap16(c.sp + spec_sign_ext(imm8(c, m))), flag_z: false, flag_n: false, flag_h: c.sp % 16 + imm8(c, m) % 16 > 15, flag_c: c.sp % 256 + imm8(c, m) > 255, pc: wrap16(c.pc + 2), cycles: (c.cycles + 16) as u64, ..c }, m)
    } else if op == 0xe9 {
        (Cpu { pc: hl16(c), cycles: (c.cycles + 4) as u64, ..c }, m)
    } else if op == 0xea {
        (bump(c, 3, 16), spec_write(m, imm16(c, m), c.a))
    } else if op == 0xee {
        (bump(alu_xor(c, imm8(c, m)), 2, 8), m)
    } else if op == 0xef {
        (Cpu { sp: wrap16(c.sp - 2), pc: 0x28, cycles: (c.cycles + 16) as u64, ..c }, push_mem(m, c, wrap16(c.pc + 1)))
    } else if op == 0xf0 {
        (bump((Cpu { a: spec_read(m, (0xff00 + imm8(c, m)) as u16), ..c }), 2, 12), m)
    } else if op == 0xf1 {
        (bump(with_af((Cpu { sp: wrap16(c.sp + 2), ..c }), pop_val(c, m)), 1, 12), m)
    } else if op == 0xf2 {
        (bump((Cpu { a: spec_read(m, (0xff00 + c.c) as u16), ..c }), 1, 8), m)
    } else if op == 0xf3 {
        (bump(c, 1, 4), MemState { ints: InterruptController { master_enable: false, ..m.ints }, ..m })
    } else if op == 0xf5 {
        (Cpu { sp: wrap16(c.sp - 2), pc: wrap16(c.pc + 1), cycles: (c.cycles + 16) as u64, ..c }, push_mem(m, c, af16(c)))
    } else if op == 0xf6 {
        (bump(alu_or(c, imm8(c, m)), 2, 8), m)
    } else if op == 0xf7 {
        (Cpu { sp: wrap16(c.sp - 2), pc: 0x30, cycles: (c.cycles + 16) as u64, ..c }, push_mem(m, c, wrap16(c.pc + 1)))
    } else if op == 0xf8 {
        (Cpu { h: (wrap16(c.sp + spec_sign_ext(imm8(c, m))) as int / 256) as u8, l: (wrap16(c.sp + spec_sign_ext(imm8(c, m))) as int % 256) as u8, flag_z: false, flag_n: false, flag_h: c.sp % 16 + imm8(c, m) % 16 > 15, flag_c: c.sp % 256 + imm8(c, m) > 255, pc: wrap16(c.pc + 2), cycles: (c.cycles + 12) as u64, ..c }, m)
    } else if op == 0xf9 {
        (bump((Cpu { sp: hl16(c), ..c }), 1, 8), m)
    } else if op == 0xfa {
        (bump((Cpu { a: spec_read(m, imm16(c, m)), ..c }), 3, 16), m)
    } else if op == 0xfb {
        (bump(c, 1, 4), MemState { ints: InterruptController { master_enable: true, ..m.ints }, ..m })
    } else if op == 0xfe {
        (bump(alu_cp(c, imm8(c, m)), 2, 8), m)
    } else if op == 0xff {
        (Cpu { sp: wrap16(c.sp - 2), pc: 0x38, cycles: (c.cycles + 16) as u64, ..c }, push_mem(m, c, wrap16(c.pc + 1)))
    } else {
        (c, m)
    }
}

/// One whole instruction from fetch at PC to the updated machine, not
/// including the end-of-step interrupt-service check. This is the CPU's
/// step function as mathematics; `run` is proved against it.
pub open spec fn spec_step(c: Cpu, m: MemState) -> (Cpu, MemState) {
    let op = spec_read(m, c.pc);
    if op < 0x10 {
        step_row0(op, c, m)
    } else if op < 0x20 {
        step_row1(op, c, m)
    } else if op < 0x30 {
        step_row2(op, c, m)
    } else if op < 0x40 {
        step_row3(op, c, m)
    } else if op < 0x80 {
        step_mov(op, c, m)
    } else if op < 0xc0 {
        step_alu(op, c, m)
    } else {
        step_high(op, c, m)
    }
}

/// The 16-bit INC and DEC instructions never modify flags: whenever the
/// next opcode is one of the eight of them, the step leaves all four
/// flags exactly as they were, whatever the rest of the machine holds.
pub proof fn lemma_inc_dec_16_flag_immunity(c: Cpu, m: MemState)
    requires
        is_inc_dec_16(spec_read(m, c.pc)),
    ensures
        spec_step(c, m).0.flag_z == c.flag_z,
        spec_step(c, m).0.flag_n == c.flag_n,
        spec_step(c, m).0.flag_h == c.flag_h,
        spec_step(c, m).0.flag_c == c.flag_c,
{
}

/// 16-bit addition modulo 2^16.
pub fn wadd16(x: u16, d: u16) -> (r: u16)
    ensures
        r == wrap16(x + d),
{
    (((x as u32) + (d as u32)) % 65536) as u16
}

/// 16-bit subtraction modulo 2^16.
pub fn wsub16(x: u16, d: u16) -> (r: u16)
    ensures
        r == wrap16(x - d),
{
    (((x as u32) + 65536 - (d as u32)) % 65536) as u16
}

/// 8-bit addition modulo 2^8.
pub fn wadd8(x: u8, d: u8) -> (r: u8)
    ensures
        r == wrap8(x + d),
{
    (((x as u16) + (d as u16)) % 256) as u8
}

/// Sign-extends a displacement byte to 16 bits.
pub fn sign_ext(d: u8) -> (r: u16)
    ensures
        r == spec_sign_ext(d),
{
    if d >= 128 {
        0xff00 + d as u16
    } else {
        d as u16
    }
}

/// True for every opcode the primary decode table defines. A program that
/// reaches an undefined opcode cannot be stepped further.
pub fn opcode_defined(op: u8) -> (r: bool)
    ensures
        r == spec_opcode_defined(op),
{
    !(op == 0xd3 || op == 0xdb || op == 0xdd || op == 0xe3 || op == 0xe4 || op == 0xeb
        || op == 0xec || op == 0xed || op == 0xf4 || op == 0xfc || op == 0xfd)
}

impl Cpu {
    /// Reads a little-endian 16-bit value at `pos`.
    pub fn read_u16(&self, mm: &MemoryMap, pos: u16) -> (r: u16)
        requires
            mm.wf(),
        ensures
            r == spec_read(mm@, pos) + spec_read(mm@, wrap16(pos + 1)) * 256,
    {
        let lo = mm.read(pos);
        let hi = mm.read(wadd16(pos, 1));
        (lo as u16) + (hi as u16) * 256
    }

    /// PUSH discipline: the high byte goes to SP-1, the low byte to SP-2,
    /// and SP drops by two; addresses wrap modulo 2^16.
    pub fn stack_write_u16(&mut self, mm: &mut MemoryMap, addr: u16)
        requires
            old(mm).wf(),
        ensures
            final(mm).wf(),
            *final(self) == (Cpu { sp: wrap16(old(self).sp - 2), ..*old(self) }),
            final(mm)@ == spec_write(
                spec_write(old(mm)@, wrap16(old(self).sp - 1), (addr as int / 256) as u8),
                wrap16(old(self).sp - 2),
                (addr as int % 256) as u8,
            ),
            final(mm)@.ints.master_enable == old(mm)@.ints.master_enable,
            final(mm)@.rom == old(mm)@.rom,
    {
        mm.write(wsub16(self.sp, 1), (addr / 256) as u8);
        mm.write(wsub16(self.sp, 2), (addr % 256) as u8);
        self.sp = wsub16(self.sp, 2);
    }

    /// POP discipline: the low byte comes from SP, the high byte from
    /// SP+1, and SP rises by two.
    pub fn stack_read_u16(&mut self, mm: &MemoryMap) -> (r: u16)
        requires
            mm.wf(),
        ensures
            *final(self) == (Cpu { sp: wrap16(old(self).sp + 2), ..*old(self) }),
            r == spec_read(mm@, old(self).sp) + spec_read(mm@, wrap16(old(self).sp + 1)) * 256,
    {
        let lower = mm.read(self.sp);
        let upper = mm.read(wadd16(self.sp, 1));
        self.sp = wadd16(self.sp, 2);
        (lower as u16) + (upper as u16) * 256
    }

    /// RES: the value with bit `bit` cleared.
    pub fn res(&self, bit: u8, reg: u8) -> (r: u8)
        requires
            bit < 8,
        ensures
            r == without_bit(reg, spec_pow2(bit)),
    {
        let m = pow2(bit);
        if (reg / m) % 2 == 1 {
            reg - m
        } else {
            reg
        }
    }

    /// SET: the value with bit `bit` set.
    pub fn set(&self, bit: u8, reg: u8) -> (r: u8)
        requires
            bit < 8,
        ensures
            r == with_bit(reg, spec_pow2(bit)),
    {
        let m = pow2(bit);
        if (reg / m) % 2 == 1 {
            reg
        } else {
            reg + m
        }
    }

    /// BIT: Zero reports the complement of the tested bit; HalfCarry set,
    /// Subtract cleared, Carry untouched.
    pub fn bit(&mut self, bit: u8, reg: u8)
        requires
            bit < 8,
        ensures
            *final(self) == (Cpu {
                flag_z: !bit_set(reg, spec_pow2(bit)),
                flag_n: false,
                flag_h: true,
                ..*old(self)
            }),
    {
        let m = pow2(bit);
        self.flag_z = (reg / m) % 2 == 0;
        self.flag_n = false;
        self.flag_h = true;
    }

    /// ADD HL,rr: Subtract cleared, HalfCarry from the bit 11 carry, Carry
    /// from the bit 15 carry; Zero untouched.
    pub fn add_hl(&mut self, val: u16)
        ensures
            *final(self) == (Cpu {
                h: (wrap16(old(self).h * 256 + old(self).l + val) as int / 256) as u8,
                l: (wrap16(old(self).h * 256 + old(self).l + val) as int % 256) as u8,
                flag_n: false,
                flag_h: (old(self).h * 256 + old(self).l) % 4096 + val % 4096 > 4095,
                flag_c: old(self).h * 256 + old(self).l + val > 65535,
                ..*old(self)
            }),
    {
        let hl = self.hl();
        let newval = wadd16(hl, val);
        self.flag_n = false;
        self.flag_h = hl % 4096 + val % 4096 > 4095;
        self.flag_c = (hl as u32) + (val as u32) > 65535;
        self.set_hl(newval);
    }

    /// DAA: corrects the accumulator to packed BCD after an arithmetic
    /// instruction, per `spec_daa`; Zero follows the corrected value.
    pub fn daa(&mut self)
        ensures
            *final(self) == (Cpu {
                a: spec_daa(old(self).a, old(self).flag_n, old(self).flag_h, old(self).flag_c).0,
                flag_z: spec_daa(
                    old(self).a,
                    old(self).flag_n,
                    old(self).flag_h,
                    old(self).flag_c,
                ).0 == 0,
                flag_h: spec_daa(
                    old(self).a,
                    old(self).flag_n,
                    old(self).flag_h,
                    old(self).flag_c,
                ).1,
                flag_c: spec_daa(
                    old(self).a,
                    old(self).flag_n,
                    old(self).flag_h,
                    old(self).flag_c,
                ).2,
                ..*old(self)
            }),
    {
        if !self.flag_n {
            if self.flag_c || self.a > 0x99 {
                self.a = wadd8(self.a, 0x60);
                self.flag_c = true;
            }
            if self.flag_h || self.a % 16 > 9 {
                self.a = wadd8(self.a, 0x06);
                self.flag_h = false;
            }
        } else if self.flag_c && self.flag_h {
            self.a = wadd8(self.a, 0x9a);
            self.flag_h = false;
        } else if self.flag_c {
            self.a = wadd8(self.a, 0xa0);
        } else if self.flag_h {
            self.a = wadd8(self.a, 0xfa);
            self.flag_h = false;
        }
        self.flag_z = self.a == 0;
    }

    /// An operand slot of the uniform instruction families: registers B,
    /// C, D, E, H, L, then the byte at HL, then A.
    fn read_operand(&self, mm: &MemoryMap, idx: u8) -> (r: u8)
        requires
            mm.wf(),
            idx < 8,
        ensures
            r == (if idx == 0 {
                self.b
            } else if idx == 1 {
                self.c
            } else if idx == 2 {
                self.d
            } else if idx == 3 {
                self.e
            } else if idx == 4 {
                self.h
            } else if idx == 5 {
                self.l
            } else if idx == 6 {
                spec_read(mm@, (self.h * 256 + self.l) as u16)
            } else {
                self.a
            }),
    {
        match idx {
            0 => self.b,
            1 => self.c,
            2 => self.d,
            3 => self.e,
            4 => self.h,
            5 => self.l,
            6 => mm.read(self.hl()),
            _ => self.a,
        }
    }

    /// Stores a result back into its operand slot.
    fn write_operand(&mut self, mm: &mut MemoryMap, idx: u8, val: u8)
        requires
            old(mm).wf(),
            idx < 8,
        ensures
            final(mm).wf(),
            final(self).pc == old(self).pc,
            final(self).sp == old(self).sp,
            final(self).cycles == old(self).cycles,
            final(self).halt == old(self).halt,
            *final(self) == (if idx == 6 {
                *old(self)
            } else {
                set_reg8(*old(self), idx, val)
            }),
            final(mm)@ == (if idx == 6 {
                spec_write(old(mm)@, (old(self).h * 256 + old(self).l) as u16, val)
            } else {
                old(mm)@
            }),
            final(mm)@.ints.master_enable == old(mm)@.ints.master_enable,
            final(mm)@.rom == old(mm)@.rom,
    {
        match idx {
            0 => {
                self.b = val;
            },
            1 => {
                self.c = val;
            },
            2 => {
                self.d = val;
            },
            3 => {
                self.e = val;
            },
            4 => {
                self.h = val;
            },
            5 => {
                self.l = val;
            },
            6 => {
                let hl = self.hl();
                mm.write(hl, val);
            },
            _ => {
                self.a = val;
            },
        }
    }

    /// Executes one CB-prefixed opcode: the rotate/shift/swap family, then
    /// BIT, RES and SET, uniformly over the eight operand slots. Returns
    /// the cycle cost: 16 when a rotate, RES or SET works on memory at HL,
    /// else 8.
    #[verifier::rlimit(100)]
    #[verifier::spinoff_prover]
    pub fn handle_cb(&mut self, mm: &mut MemoryMap) -> (c: u64)
        requires
            old(mm).wf(),
        ensures
            final(mm).wf(),
            c == 8 || c == 16,
            final(self).pc == old(self).pc,
            final(self).sp == old(self).sp,
            final(self).cycles == old(self).cycles,
            final(self).halt == old(self).halt,
            final(mm)@.ints.master_enable == old(mm)@.ints.master_enable,
            final(mm)@.rom == old(mm)@.rom,
            *final(self) == spec_cb(*old(self), old(mm)@).0,
            final(mm)@ == spec_cb(*old(self), old(mm)@).1,
            c == spec_cb(*old(self), old(mm)@).2,
    {
        let opcode = mm.read(wadd16(self.pc, 1));
        let idx = opcode % 8;
        let kind = opcode / 8;
        let val = self.read_operand(mm, idx);
        if kind < 8 {
            let newval = match kind {
                0 => self.rlc(val),
                1 => self.rrc(val),
                2 => self.rl(val),
                3 => self.rr(val),
                4 => self.sla(val),
                5 => self.sra(val),
                6 => self.swap(val),
                _ => self.srl(val),
            };
            self.write_operand(mm, idx, newval);
            if idx == 6 {
                16
            } else {
                8
            }
        } else if kind < 16 {
            self.bit(kind - 8, val);
            8
        } else if kind < 24 {
            let newval = self.res(kind - 16, val);
            self.write_operand(mm, idx, newval);
            if idx == 6 {
                16
            } else {
                8
            }
        } else {
            let newval = self.set(kind - 24, val);
            self.write_operand(mm, idx, newval);
            if idx == 6 {
                16
            } else {
                8
            }
        }
    }

    /// Services one interrupt: leaves HALT, pushes the current PC, jumps
    /// to the vector, and charges 20 cycles.
    fn service_interrupt(&mut self, mm: &mut MemoryMap, addr: u16)
        requires
            old(mm).wf(),
            old(self).cycles + 20 <= u64::MAX,
        ensures
            final(mm).wf(),
            *final(self) == (Cpu {
                halt: false,
                pc: addr,
                sp: wrap16(old(self).sp - 2),
                cycles: (old(self).cycles + 20) as u64,
                ..*old(self)
            }),
            final(mm)@ == spec_write(
                spec_write(old(mm)@, wrap16(old(self).sp - 1), (old(self).pc as int / 256) as u8),
                wrap16(old(self).sp - 2),
                (old(self).pc as int % 256) as u8,
            ),
            final(mm)@.ints.master_enable == old(mm)@.ints.master_enable,
            final(mm)@.rom == old(mm)@.rom,
    {
        self.halt = false;
        let pc = self.pc;
        self.stack_write_u16(mm, pc);
        self.pc = addr;
        self.cycles = self.cycles + 20;
    }

    /// The end-of-step service check: at most one interrupt is serviced,
    /// the highest-priority pending one; servicing clears IME and that
    /// source's request bit, so the lower-priority requests stay set.
    pub fn service_interrupts(&mut self, mm: &mut MemoryMap)
        requires
            old(mm).wf(),
            old(self).cycles + 20 <= u64::MAX,
        ensures
            final(mm).wf(),
            pending_vector(old(mm)@.ints) is None ==> *final(self) == *old(self) && final(mm)@
                == old(mm)@,
            (pending_vector(old(mm)@.ints) matches Some(sv) ==> *final(self) == serviced_cpu(
                *old(self),
                sv.1,
            ) && final(mm)@ == serviced_mem(old(mm)@, sv.0, *old(self))),
            final(mm)@.rom == old(mm)@.rom,
    {
        if mm.interrupt_triggered(INTERRUPT_VBLANK) {
            self.service_interrupt(mm, 0x40);
        }
        if mm.interrupt_triggered(INTERRUPT_LCD_STAT) {
            self.service_interrupt(mm, 0x48);
        }
        if mm.interrupt_triggered(INTERRUPT_TIMER) {
            self.service_interrupt(mm, 0x50);
        }
        if mm.interrupt_triggered(INTERRUPT_SERIAL) {
            self.service_interrupt(mm, 0x58);
        }
        if mm.interrupt_triggered(INTERRUPT_JOYPAD) {
            self.service_interrupt(mm, 0x60);
        }
    }

    /// One CPU step. While halted it advances a fixed 16-cycle quantum and
    /// only checks for interrupts; otherwise it fetches the opcode at PC,
    /// executes it with the documented cycle cost, and advances PC. Either
    /// way the step ends with one interrupt-service check, which may add
    /// 20 more cycles. Returns the cumulative cycle count.
    /// Executes one opcode of the 0x00..0x0f row, against `step_row0`.
    #[verifier::rlimit(100)]
    #[verifier::spinoff_prover]
    fn exec_row0(&mut self, mm: &mut MemoryMap, op: u8)
        requires
            old(mm).wf(),
            0x0 <= op < 0x10,
            old(self).cycles + 24 <= u64::MAX,
        ensures
            final(mm).wf(),
            (*final(self), final(mm)@) == step_row0(op, *old(self), old(mm)@),
            final(mm)@.rom == old(mm)@.rom,
            old(self).cycles <= final(self).cycles <= old(self).cycles + 24,
    {
        let mut pc = self.pc;
        match op {
            0x00 => {
                // NOP
                self.cycles = self.cycles + 4;
                pc = wadd16(pc, 1);
            },
            0x01 => {
                // LD BC,nn
                let val = self.read_u16(mm, wadd16(pc, 1));
                self.set_bc(val);
                self.cycles = self.cycles + 12;
                pc = wadd16(pc, 3);
            },
            0x02 => {
                // LD (BC),A
                let addr = self.bc();
                mm.write(addr, self.a);
                self.cycles = self.cycles + 8;
                pc = wadd16(pc, 1);
            },
            0x03 => {
                // INC BC
                let v = self.bc();
                let inc = self.inc16(v);
                self.set_bc(inc);
                self.cycles = self.cycles + 8;
                pc = wadd16(pc, 1);
            },
            0x04 => {
                // INC B
                let v = self.b;
                self.b = self.inc(v);
                self.cycles = self.cycles + 4;
                pc = wadd16(pc, 1);
            },
            0x05 => {
                // DEC B
                let v = self.b;
                self.b = self.dec(v);
                self.cycles = self.cycles + 4;
                pc = wadd16(pc, 1);
            },
            0x06 => {
                // LD B,n
                let val = mm.read(wadd16(pc, 1));
                self.b = val;
                self.cycles = self.cycles + 8;
                pc = wadd16(pc, 2);
            },
            0x07 => {
                // RLCA: the accumulator rotate always clears Zero
                let v = self.a;
                self.a = self.rlc(v);
                self.set_zero(false);
                self.cycles = self.cycles + 4;
                pc = wadd16(pc, 1);
            },
            0x08 => {
                // LD (nn),SP
                let val = self.read_u16(mm, wadd16(pc, 1));
                mm.write(wadd16(val, 1), (self.sp / 256) as u8);
                mm.write(val, (self.sp % 256) as u8);
                self.cycles = self.cycles + 20;
                pc = wadd16(pc, 3);
            },
            0x09 => {
                // ADD HL,BC
                let v = self.bc();
                self.add_hl(v);
                self.cycles = self.cycles + 8;
                pc = wadd16(pc, 1);
            },
            0x0a => {
                // LD A,(BC)
                let addr = self.bc();
                self.a = mm.read(addr);
                self.cycles = self.cycles + 8;
                pc = wadd16(pc, 1);
            },
            0x0b => {
                // DEC BC
                let v = self.bc();
                let dec = self.dec16(v);
                self.set_bc(dec);
                self.cycles = self.cycles + 8;
                pc = wadd16(pc, 1);
            },
            0x0c => {
                // INC C
                let v = self.c;
                self.c = self.inc(v);
                self.cycles = self.cycles + 4;
                pc = wadd16(pc, 1);
            },
            0x0d => {
                // DEC C
                let v = self.c;
                self.c = self.dec(v);
                self.cycles = self.cycles + 4;
                pc = wadd16(pc, 1);
            },
            0x0e => {
                // LD C,n
                let val = mm.read(wadd16(pc, 1));
                self.c = val;
                self.cycles = self.cycles + 8;
                pc = wadd16(pc, 2);
            },
            0x0f => {
                // RRCA: the accumulator rotate always clears Zero
                let v = self.a;
                self.a = self.rrc(v);
                self.set_zero(false);
                self.cycles = self.cycles + 4;
                pc = wadd16(pc, 1);
            },
            _ => {
                proof {
                    assert(false);
                }
            },
        }
        self.pc = pc;
    }

    /// Executes one opcode of the 0x10..0x1f row, against `step_row1`.
    #[verifier::rlimit(100)]
    #[verifier::spinoff_prover]
    fn exec_row1(&mut self, mm: &mut MemoryMap, op: u8)
        requires
            old(mm).wf(),
            0x10 <= op < 0x20,
            old(self).cycles + 24 <= u64::MAX,
        ensures
            final(mm).wf(),
            (*final(self), final(mm)@) == step_row1(op, *old(self), old(mm)@),
            final(mm)@.rom == old(mm)@.rom,
            old(self).cycles <= final(self).cycles <= old(self).cycles + 24,
    {
        let mut pc = self.pc;
        match op {
            0x10 => {
                // STOP: modelled as an inert two-byte instruction
                self.cycles = self.cycles + 4;
                pc = wadd16(pc, 2);
            },
            0x11 => {
                // LD DE,nn
                let val = self.read_u16(mm, wadd16(pc, 1));
                self.set_de(val);
                self.cycles = self.cycles + 12;
                pc = wadd16(pc, 3);
            },
            0x12 => {
                // LD (DE),A
                let addr = self.de();
                mm.write(addr, self.a);
                self.cycles = self.cycles + 8;
                pc = wadd16(pc, 1);
            },
            0x13 => {
                // INC DE
                let v = self.de();
                let inc = self.inc16(v);
                self.set_de(inc);
                self.cycles = self.cycles + 8;
                pc = wadd16(pc, 1);
            },
            0x14 => {
                // INC D
                let v = self.d;
                self.d = self.inc(v);
                self.cycles = self.cycles + 4;
                pc = wadd16(pc, 1);
            },
            0x15 => {
                // DEC D
                let v = self.d;
                self.d = self.dec(v);
                self.cycles = self.cycles + 4;
                pc = wadd16(pc, 1);
            },
            0x16 => {
                // LD D,n
                let val = mm.read(wadd16(pc, 1));
                self.d = val;
                self.cycles = self.cycles + 8;
                pc = wadd16(pc, 2);
            },
            0x17 => {
                // RLA: the accumulator rotate always clears Zero
                let v = self.a;
                self.a = self.rl(v);
                self.set_zero(false);
                self.cycles = self.cycles + 4;
                pc = wadd16(pc, 1);
            },
            0x18 => {
                // JR e
                let val = mm.read(wadd16(pc, 1));
                pc = wadd16(pc, sign_ext(val));
                self.cycles = self.cycles + 12;
                pc = wadd16(pc, 2);
            },
            0x19 => {
                // ADD HL,DE
                let v = self.de();
                self.add_hl(v);
                self.cycles = self.cycles + 8;
                pc = wadd16(pc, 1);
            },
            0x1a => {
                // LD A,(DE)
                let addr = self.de();
                self.a = mm.read(addr);
                self.cycles = self.cycles + 8;
                pc = wadd16(pc, 1);
            },
            0x1b => {
                // DEC DE
                let v = self.de();
                let dec = self.dec16(v);
                self.set_de(dec);
                self.cycles = self.cycles + 8;
                pc = wadd16(pc, 1);
            },
            0x1c => {
                // INC E
                let v = self.e;
                self.e = self.inc(v);
                self.cycles = self.cycles + 4;
                pc = wadd16(pc, 1);
            },
            0x1d => {
                // DEC E
                let v = self.e;
                self.e = self.dec(v);
                self.cycles = self.cycles + 4;
                pc = wadd16(pc, 1);
            },
            0x1e => {
                // LD E,n
                let val = mm.read(wadd16(pc, 1));
                self.e = val;
                self.cycles = self.cycles + 8;
                pc = wadd16(pc, 2);
            },
            0x1f => {
                // RRA: the accumulator rotate always clears Zero
                let v = self.a;
                self.a = self.rr(v);
                self.set_zero(false);
                self.cycles = self.cycles + 4;
                pc = wadd16(pc, 1);
            },
            _ => {
                proof {
                    assert(false);
                }
            },
        }
        self.pc = pc;
    }

    /// Executes one opcode of the 0x20..0x2f row, against `step_row2`.
    #[verifier::rlimit(100)]
    #[verifier::spinoff_prover]
    fn exec_row2(&mut self, mm: &mut MemoryMap, op: u8)
        requires
            old(mm).wf(),
            0x20 <= op < 0x30,
            old(self).cycles + 24 <= u64::MAX,
        ensures
            final(mm).wf(),
            (*final(self), final(mm)@) == step_row2(op, *old(self), old(mm)@),
            final(mm)@.rom == old(mm)@.rom,
            old(self).cycles <= final(self).cycles <= old(self).cycles + 24,
    {
        let mut pc = self.pc;
        match op {
            0x20 => {
                // JR cc,e
                let val = mm.read(wadd16(pc, 1));
                if !self.zero() {
                    pc = wadd16(pc, sign_ext(val));
                    self.cycles = self.cycles + 12;
                } else {
                    self.cycles = self.cycles + 8;
                }
                pc = wadd16(pc, 2);
            },
            0x21 => {
                // LD HL,nn
                let val = self.read_u16(mm, wadd16(pc, 1));
                self.set_hl(val);
                self.cycles = self.cycles + 12;
                pc = wadd16(pc, 3);
            },
            0x22 => {
                // LD (HL+),A
                let hl = self.hl();
                mm.write(hl, self.a);
                self.set_hl(wadd16(hl, 1));
                self.cycles = self.cycles + 8;
                pc = wadd16(pc, 1);
            },
            0x23 => {
                // INC HL
                let v = self.hl();
                let inc = self.inc16(v);
                self.set_hl(inc);
                self.cycles = self.cycles + 8;
                pc = wadd16(pc, 1);
            },
            0x24 => {
                // INC H
                let v = self.h;
                self.h = self.inc(v);
                self.cycles = self.cycles + 4;
                pc = wadd16(pc, 1);
            },
            0x25 => {
                // DEC H
                let v = self.h;
                self.h = self.dec(v);
                self.cycles = self.cycles + 4;
                pc = wadd16(pc, 1);
            },
            0x26 => {
                // LD H,n
                let val = mm.read(wadd16(pc, 1));
                self.h = val;
                self.cycles = self.cycles + 8;
                pc = wadd16(pc, 2);
            },
            0x27 => {
                // DAA
                self.daa();
                self.cycles = self.cycles + 4;
                pc = wadd16(pc, 1);
            },
            0x28 => {
                // JR cc,e
                let val = mm.read(wadd16(pc, 1));
                if self.zero() {
                    pc = wadd16(pc, sign_ext(val));
                    self.cycles = self.cycles + 12;
                } else {
                    self.cycles = self.cycles + 8;
                }
                pc = wadd16(pc, 2);
            },
            0x29 => {
                // ADD HL,HL
                let v = self.hl();
                self.add_hl(v);
                self.cycles = self.cycles + 8;
                pc = wadd16(pc, 1);
            },
            0x2a => {
                // LD A,(HL+)
                let hl = self.hl();
                self.a = mm.read(hl);
                let inc = self.inc16(hl);
                self.set_hl(inc);
                self.cycles = self.cycles + 8;
                pc = wadd16(pc, 1);
            },
            0x2b => {
                // DEC HL
                let v = self.hl();
                let dec = self.dec16(v);
                self.set_hl(dec);
                self.cycles = self.cycles + 8;
                pc = wadd16(pc, 1);
            },
            0x2c => {
                // INC L
                let v = self.l;
                self.l = self.inc(v);
                self.cycles = self.cycles + 4;
                pc = wadd16(pc, 1);
            },
            0x2d => {
                // DEC L
                let v = self.l;
                self.l = self.dec(v);
                self.cycles = self.cycles + 4;
                pc = wadd16(pc, 1);
            },
            0x2e => {
                // LD L,n
                let val = mm.read(wadd16(pc, 1));
                self.l = val;
                self.cycles = self.cycles + 8;
                pc = wadd16(pc, 2);
            },
            0x2f => {
                // CPL
                self.a = 255 - self.a;
                self.set_subtract(true);
                self.set_half_carry(true);
                self.cycles = self.cycles + 4;
                pc = wadd16(pc, 1);
            },
            _ => {
                proof {
                    assert(false);
                }
            },
        }
        self.pc = pc;
    }

    /// Executes one opcode of the 0x30..0x3f row, against `step_row3`.
    #[verifier::rlimit(100)]
    #[verifier::spinoff_prover]
    fn exec_row3(&mut self, mm: &mut MemoryMap, op: u8)
        requires
            old(mm).wf(),
            0x30 <= op < 0x40,
            old(self).cycles + 24 <= u64::MAX,
        ensures
            final(mm).wf(),
            (*final(self), final(mm)@) == step_row3(op, *old(self), old(mm)@),
            final(mm)@.rom == old(mm)@.rom,
            old(self).cycles <= final(self).cycles <= old(self).cycles + 24,
    {
        let mut pc = self.pc;
        match op {
            0x30 => {
                // JR cc,e
                let val = mm.read(wadd16(pc, 1));
                if !self.carry() {
                    pc = wadd16(pc, sign_ext(val));
                    self.cycles = self.cycles + 12;
                } else {
                    self.cycles = self.cycles + 8;
                }
                pc = wadd16(pc, 2);
            },
            0x31 => {
                // LD SP,nn
                let val = self.read_u16(mm, wadd16(pc, 1));
                self.sp = val;
                self.cycles = self.cycles + 12;
                pc = wadd16(pc, 3);
            },
            0x32 => {
                // LD (HL-),A
                let hl = self.hl();
                mm.write(hl, self.a);
                let dec = self.dec16(hl);
                self.set_hl(dec);
                self.cycles = self.cycles + 8;
                pc = wadd16(pc, 1);
            },
            0x33 => {
                // INC SP
                self.sp = wadd16(self.sp, 1);
                self.cycles = self.cycles + 8;
                pc = wadd16(pc, 1);
            },
            0x34 => {
                // INC (HL)
                let hl = self.hl();
                let v = mm.read(hl);
                let nv = self.inc(v);
                mm.write(hl, nv);
                self.cycles = self.cycles + 12;
                pc = wadd16(pc, 1);
            },
            0x35 => {
                // DEC (HL)
                let hl = self.hl();
                let v = mm.read(hl);
                let nv = self.dec(v);
                mm.write(hl, nv);
                self.cycles = self.cycles + 12;
                pc = wadd16(pc, 1);
            },
            0x36 => {
                // LD (HL),n
                let val = mm.read(wadd16(pc, 1));
                let hl = self.hl();
                mm.write(hl, val);
                self.cycles = self.cycles + 12;
                pc = wadd16(pc, 2);
            },
            0x37 => {
                // SCF
                self.set_subtract(false);
                self.set_half_carry(false);
                self.set_carry(true);
                self.cycles = self.cycles + 4;
                pc = wadd16(pc, 1);
            },
            0x38 => {
                // JR cc,e
                let val = mm.read(wadd16(pc, 1));
                if self.carry() {
                    pc = wadd16(pc, sign_ext(val));
                    self.cycles = self.cycles + 12;
                } else {
                    self.cycles = self.cycles + 8;
                }
                pc = wadd16(pc, 2);
            },
            0x39 => {
                // ADD HL,SP
                let sp = self.sp;
                self.add_hl(sp);
                self.cycles = self.cycles + 8;
                pc = wadd16(pc, 2);
            },
            0x3a => {
                // LD A,(HL-)
                let hl = self.hl();
                self.a = mm.read(hl);
                self.set_hl(wsub16(hl, 1));
                self.cycles = self.cycles + 8;
                pc = wadd16(pc, 1);
            },
            0x3b => {
                // DEC SP
                self.sp = wsub16(self.sp, 1);
                self.cycles = self.cycles + 8;
                pc = wadd16(pc, 2);
            },
            0x3c => {
                // INC A
                let v = self.a;
                self.a = self.inc(v);
                self.cycles = self.cycles + 4;
                pc = wadd16(pc, 1);
            },
            0x3d => {
                // DEC A
                let v = self.a;
                self.a = self.dec(v);
                self.cycles = self.cycles + 4;
                pc = wadd16(pc, 1);
            },
            0x3e => {
                // LD A,n
                let val = mm.read(wadd16(pc, 1));
                self.a = val;
                self.cycles = self.cycles + 8;
                pc = wadd16(pc, 2);
            },
            0x3f => {
                // CCF
                let c = self.carry();
                self.set_subtract(false);
                self.set_half_carry(false);
                self.set_carry(!c);
                self.cycles = self.cycles + 4;
                pc = wadd16(pc, 1);
            },
            _ => {
                proof {
                    assert(false);
                }
            },
        }
        self.pc = pc;
    }

    /// Executes one load of the 0x40..0x7f block, or HALT, against
    /// `step_mov`.
    #[verifier::rlimit(100)]
    #[verifier::spinoff_prover]
    fn exec_mov(&mut self, mm: &mut MemoryMap, op: u8)
        requires
            old(mm).wf(),
            0x40 <= op < 0x80,
            old(self).cycles + 24 <= u64::MAX,
        ensures
            final(mm).wf(),
            (*final(self), final(mm)@) == step_mov(op, *old(self), old(mm)@),
            final(mm)@.rom == old(mm)@.rom,
            old(self).cycles <= final(self).cycles <= old(self).cycles + 24,
    {
        let mut pc = self.pc;
        match op {
            0x40 => {
                // LD B,B
                self.cycles = self.cycles + 4;
                pc = wadd16(pc, 1);
            },
            0x41 => {
                // LD B,C
                self.b = self.c;
                self.cycles = self.cycles + 4;
                pc = wadd16(pc, 1);
            },
            0x42 => {
                // LD B,D
                self.b = self.d;
                self.cycles = self.cycles + 4;
                pc = wadd16(pc, 1);
            },
            0x43 => {
                // LD B,E
                self.b = self.e;
                self.cycles = self.cycles + 4;
                pc = wadd16(pc, 1);
            },
            0x44 => {
                // LD B,H
                self.b = self.h;
                self.cycles = self.cycles + 4;
                pc = wadd16(pc, 1);
            },
            0x45 => {
                // LD B,L
                self.b = self.l;
                self.cycles = self.cycles + 4;
                pc = wadd16(pc, 1);
            },
            0x46 => {
                // LD B,(HL)
                let hl = self.hl();
                self.b = mm.read(hl);
                self.cycles = self.cycles + 8;
                pc = wadd16(pc, 1);
            },
            0x47 => {
                // LD B,A
                self.b = self.a;
                self.cycles = self.cycles + 4;
                pc = wadd16(pc, 1);
            },
            0x48 => {
                // LD C,B
                self.c = self.b;
                self.cycles = self.cycles + 4;
                pc = wadd16(pc, 1);
            },
            0x49 => {
                // LD C,C
                self.cycles = self.cycles + 4;
                pc = wadd16(pc, 1);
            },
            0x4a => {
                // LD C,D
                self.c = self.d;
                self.cycles = self.cycles + 4;
                pc = wadd16(pc, 1);
            },
            0x4b => {
                // LD C,E
                self.c = self.e;
                self.cycles = self.cycles + 4;
                pc = wadd16(pc, 1);
            },
            0x4c => {
                // LD C,H
                self.c = self.h;
                self.cycles = self.cycles + 4;
                pc = wadd16(pc, 1);
            },
            0x4d => {
                // LD C,L
                self.c = self.l;
                self.cycles = self.cycles + 4;
                pc = wadd16(pc, 1);
            },
            0x4e => {
                // LD C,(HL)
                let hl = self.hl();
                self.c = mm.read(hl);
                self.cycles = self.cycles + 8;
                pc = wadd16(pc, 1);
            },
            0x4f => {
                // LD C,A
                self.c = self.a;
                self.cycles = self.cycles + 4;
                pc = wadd16(pc, 1);
            },
            0x50 => {
                // LD D,B
                self.d = self.b;
                self.cycles = self.cycles + 4;
                pc = wadd16(pc, 1);
            },
            0x51 => {
                // LD D,C
                self.d = self.c;
                self.cycles = self.cycles + 4;
                pc = wadd16(pc, 1);
            },
            0x52 => {
                // LD D,D
                self.cycles = self.cycles + 4;
                pc = wadd16(pc, 1);
            },
            0x53 => {
                // LD D,E
                self.d = self.e;
                self.cycles = self.cycles + 4;
                pc = wadd16(pc, 1);
            },
            0x54 => {
                // LD D,H
                self.d = self.h;
                self.cycles = self.cycles + 4;
                pc = wadd16(pc, 1);
            },
            0x55 => {
                // LD D,L
                self.d = self.l;
                self.cycles = self.cycles + 4;
                pc = wadd16(pc, 1);
            },
            0x56 => {
                // LD D,(HL)
                let hl = self.hl();
                self.d = mm.read(hl);
                self.cycles = self.cycles + 8;
                pc = wadd16(pc, 1);
            },
            0x57 => {
                // LD D,A
                self.d = self.a;
                self.cycles = self.cycles + 4;
                pc = wadd16(pc, 1);
            },
            0x58 => {
                // LD E,B
                self.e = self.b;
                self.cycles = self.cycles + 4;
                pc = wadd16(pc, 1);
            },
            0x59 => {
                // LD E,C
                self.e = self.c;
                self.cycles = self.cycles + 4;
                pc = wadd16(pc, 1);
            },
            0x5a => {
                // LD E,D
                self.e = self.d;
                self.cycles = self.cycles + 4;
                pc = wadd16(pc, 1);
            },
            0x5b => {
                // LD E,E
                self.cycles = self.cycles + 4;
                pc = wadd16(pc, 1);
            },
            0x5c => {
                // LD E,H
                self.e = self.h;
                self.cycles = self.cycles + 4;
                pc = wadd16(pc, 1);
            },
            0x5d => {
                // LD E,L
                self.e = self.l;
                self.cycles = self.cycles + 4;
                pc = wadd16(pc, 1);
            },
            0x5e => {
                // LD E,(HL)
                let hl = self.hl();
                self.e = mm.read(hl);
                self.cycles = self.cycles + 8;
                pc = wadd16(pc, 1);
            },
            0x5f => {
                // LD E,A
                self.e = self.a;
                self.cycles = self.cycles + 4;
                pc = wadd16(pc, 1);
            },
            0x60 => {
                // LD H,B
                self.h = self.b;
                self.cycles = self.cycles + 4;
                pc = wadd16(pc, 1);
            },
            0x61 => {
                // LD H,C
                self.h = self.c;
                self.cycles = self.cycles + 4;
                pc = wadd16(pc, 1);
            },
            0x62 => {
                // LD H,D
                self.h = self.d;
                self.cycles = self.cycles + 4;
                pc = wadd16(pc, 1);
            },
            0x63 => {
                // LD H,E
                self.h = self.e;
                self.cycles = self.cycles + 4;
                pc = wadd16(pc, 1);
            },
            0x64 => {
                // LD H,H
                self.cycles = self.cycles + 4;
                pc = wadd16(pc, 1);
            },
            0x65 => {
                // LD H,L
                self.h = self.l;
                self.cycles = self.cycles + 4;
                pc = wadd16(pc, 1);
            },
            0x66 => {
                // LD H,(HL)
                let hl = self.hl();
                self.h = mm.read(hl);
                self.cycles = self.cycles + 8;
                pc = wadd16(pc, 1);
            },
            0x67 => {
                // LD H,A
                self.h = self.a;
                self.cycles = self.cycles + 4;
                pc = wadd16(pc, 1);
            },
            0x68 => {
                // LD L,B
                self.l = self.b;
                self.cycles = self.cycles + 4;
                pc = wadd16(pc, 1);
            },
            0x69 => {
                // LD L,C
                self.l = self.c;
                self.cycles = self.cycles + 4;
                pc = wadd16(pc, 1);
            },
            0x6a => {
                // LD L,D
                self.l = self.d;
                self.cycles = self.cycles + 4;
                pc = wadd16(pc, 1);
            },
            0x6b => {
                // LD L,E
                self.l = self.e;
                self.cycles = self.cycles + 4;
                pc = wadd16(pc, 1);
            },
            0x6c => {
                // LD L,H
                self.l = self.h;
                self.cycles = self.cycles + 4;
                pc = wadd16(pc, 1);
            },
            0x6d => {
                // LD L,L
                self.cycles = self.cycles + 4;
                pc = wadd16(pc, 1);
            },
            0x6e => {
                // LD L,(HL)
                let hl = self.hl();
                self.l = mm.read(hl);
                self.cycles = self.cycles + 8;
                pc = wadd16(pc, 1);
            },
            0x6f => {
                // LD L,A
                self.l = self.a;
                self.cycles = self.cycles + 4;
                pc = wadd16(pc, 1);
            },
            0x70 => {
                // LD (HL),B
                let hl = self.hl();
                mm.write(hl, self.b);
                self.cycles = self.cycles + 8;
                pc = wadd16(pc, 1);
            },
            0x71 => {
                // LD (HL),C
                let hl = self.hl();
                mm.write(hl, self.c);
                self.cycles = self.cycles + 8;
                pc = wadd16(pc, 1);
            },
            0x72 => {
                // LD (HL),D
                let hl = self.hl();
                mm.write(hl, self.d);
                self.cycles = self.cycles + 8;
                pc = wadd16(pc, 1);
            },
            0x73 => {
                // LD (HL),E
                let hl = self.hl();
                mm.write(hl, self.e);
                self.cycles = self.cycles + 8;
                pc = wadd16(pc, 1);
            },
            0x74 => {
                // LD (HL),H
                let hl = self.hl();
                mm.write(hl, self.h);
                self.cycles = self.cycles + 8;
                pc = wadd16(pc, 1);
            },
            0x75 => {
                // LD (HL),L
                let hl = self.hl();
                mm.write(hl, self.l);
                self.cycles = self.cycles + 8;
                pc = wadd16(pc, 1);
            },
            0x76 => {
                // HALT
                self.halt = true;
                pc = wadd16(pc, 1);
            },
            0x77 => {
                // LD (HL),A
                let hl = self.hl();
                mm.write(hl, self.a);
                self.cycles = self.cycles + 8;
                pc = wadd16(pc, 1);
            },
            0x78 => {
                // LD A,B
                self.a = self.b;
                self.cycles = self.cycles + 4;
                pc = wadd16(pc, 1);
            },
            0x79 => {
                // LD A,C
                self.a = self.c;
                self.cycles = self.cycles + 4;
                pc = wadd16(pc, 1);
            },
            0x7a => {
                // LD A,D
                self.a = self.d;
                self.cycles = self.cycles + 4;
                pc = wadd16(pc, 1);
            },
            0x7b => {
                // LD A,E
                self.a = self.e;
                self.cycles = self.cycles + 4;
                pc = wadd16(pc, 1);
            },
            0x7c => {
                // LD A,H
                self.a = self.h;
                self.cycles = self.cycles + 4;
                pc = wadd16(pc, 1);
            },
            0x7d => {
                // LD A,L
                self.a = self.l;
                self.cycles = self.cycles + 4;
                pc = wadd16(pc, 1);
            },
            0x7e => {
                // LD A,(HL)
                let hl = self.hl();
                self.a = mm.read(hl);
                self.cycles = self.cycles + 8;
                pc = wadd16(pc, 1);
            },
            0x7f => {
                // LD A,A
                self.cycles = self.cycles + 4;
                pc = wadd16(pc, 1);
            },
            _ => {
                proof {
                    assert(false);
                }
            },
        }
        self.pc = pc;
    }

    /// Executes one ALU opcode of the 0x80..0xbf block, against
    /// `step_alu`.
    fn exec_alu(&mut self, mm: &mut MemoryMap, op: u8)
        requires
            old(mm).wf(),
            0x80 <= op < 0xc0,
            old(self).cycles + 24 <= u64::MAX,
        ensures
            final(mm).wf(),
            (*final(self), final(mm)@) == step_alu(op, *old(self), old(mm)@),
            final(mm)@.rom == old(mm)@.rom,
            old(self).cycles <= final(self).cycles <= old(self).cycles + 24,
    {
        let operand = op % 8;
        let group = (op - 0x80) / 8;
        let val = self.read_operand(mm, operand);
        match group {
            0 => self.add(val),
            1 => self.adc(val),
            2 => self.sub(val),
            3 => self.sbc(val),
            4 => self.and(val),
            5 => self.xor(val),
            6 => self.or(val),
            _ => self.cp(val),
        }
        let cost: u64 = if operand == 6 || op == 0x87 {
            8
        } else {
            4
        };
        self.cycles = self.cycles + cost;
        self.pc = wadd16(self.pc, 1);
    }

    /// Executes one opcode from 0xc0 up: flow control, the stack, the CB
    /// prefix and the high-page loads, against `step_high`.
    #[verifier::rlimit(100)]
    #[verifier::spinoff_prover]
    fn exec_high(&mut self, mm: &mut MemoryMap, op: u8)
        requires
            old(mm).wf(),
            0xc0 <= op,
            spec_opcode_defined(op),
            old(self).cycles + 24 <= u64::MAX,
        ensures
            final(mm).wf(),
            (*final(self), final(mm)@) == step_high(op, *old(self), old(mm)@),
            final(mm)@.rom == old(mm)@.rom,
            old(self).cycles <= final(self).cycles <= old(self).cycles + 24,
    {
        let mut pc = self.pc;
        match op {
            0xc0 => {
                // RET cc
                if !self.zero() {
                    let addr = self.stack_read_u16(mm);
                    self.cycles = self.cycles + 20;
                    pc = addr;
                } else {
                    self.cycles = self.cycles + 8;
                    pc = wadd16(pc, 1);
                }
            },
            0xc1 => {
                // POP BC
                let val = self.stack_read_u16(mm);
                self.set_bc(val);
                self.cycles = self.cycles + 12;
                pc = wadd16(pc, 1);
            },
            0xc2 => {
                // JP cc,nn
                let val = self.read_u16(mm, wadd16(pc, 1));
                if !self.zero() {
                    self.cycles = self.cycles + 16;
                    pc = val;
                } else {
                    self.cycles = self.cycles + 12;
                    pc = wadd16(pc, 3);
                }
            },
            0xc3 => {
                // JP nn
                let val = self.read_u16(mm, wadd16(pc, 1));
                self.cycles = self.cycles + 16;
                pc = val;
            },
            0xc4 => {
                // CALL cc,nn
                let val = self.read_u16(mm, wadd16(pc, 1));
                if !self.zero() {
                    let addr = wadd16(self.pc, 3);
                    self.stack_write_u16(mm, addr);
                    self.cycles = self.cycles + 24;
                    pc = val;
                } else {
                    self.cycles = self.cycles + 12;
                    pc = wadd16(pc, 3);
                }
            },
            0xc5 => {
                // PUSH BC
                let val = self.bc();
                self.stack_write_u16(mm, val);
                self.cycles = self.cycles + 16;
                pc = wadd16(pc, 1);
            },
            0xc6 => {
                // ADD A,n
                let val = mm.read(wadd16(pc, 1));
                self.add(val);
                self.cycles = self.cycles + 8;
                pc = wadd16(pc, 2);
            },
            0xc7 => {
                // RST 0x00
                let addr = wadd16(self.pc, 1);
                self.stack_write_u16(mm, addr);
                self.cycles = self.cycles + 16;
                pc = 0x0;
            },
            0xc8 => {
                // RET cc
                if self.zero() {
                    let addr = self.stack_read_u16(mm);
                    self.cycles = self.cycles + 20;
                    pc = addr;
                } else {
                    self.cycles = self.cycles + 8;
                    pc = wadd16(pc, 1);
                }
            },
            0xc9 => {
                // RET
                let addr = self.stack_read_u16(mm);
                self.cycles = self.cycles + 16;
                pc = addr;
            },
            0xca => {
                // JP cc,nn
                let val = self.read_u16(mm, wadd16(pc, 1));
                if self.zero() {
                    self.cycles = self.cycles + 16;
                    pc = val;
                } else {
                    self.cycles = self.cycles + 12;
                    pc = wadd16(pc, 3);
                }
            },
            0xcb => {
                // The CB-prefixed secondary table
                let c = self.handle_cb(mm);
                self.cycles = self.cycles + c;
                pc = wadd16(pc, 2);
            },
            0xcc => {
                // CALL cc,nn
                let val = self.read_u16(mm, wadd16(pc, 1));
                if self.zero() {
                    let addr = wadd16(self.pc, 3);
                    self.stack_write_u16(mm, addr);
                    self.cycles = self.cycles + 24;
                    pc = val;
                } else {
                    self.cycles = self.cycles + 12;
                    pc = wadd16(pc, 3);
                }
            },
            0xcd => {
                // CALL nn
                let val = self.read_u16(mm, wadd16(pc, 1));
                let addr = wadd16(self.pc, 3);
                self.stack_write_u16(mm, addr);
                self.cycles = self.cycles + 24;
                pc = val;
            },
            0xce => {
                // ADC A,n
                let val = mm.read(wadd16(pc, 1));
                self.adc(val);
                self.cycles = self.cycles + 8;
                pc = wadd16(pc, 2);
            },
            0xcf => {
                // RST 0x08
                let addr = wadd16(self.pc, 1);
                self.stack_write_u16(mm, addr);
                self.cycles = self.cycles + 16;
                pc = 0x8;
            },
            0xd0 => {
                // RET cc
                if !self.carry() {
                    let addr = self.stack_read_u16(mm);
                    self.cycles = self.cycles + 20;
                    pc = addr;
                } else {
                    self.cycles = self.cycles + 8;
                    pc = wadd16(pc, 1);
                }
            },
            0xd1 => {
                // POP DE
                let val = self.stack_read_u16(mm);
                self.set_de(val);
                self.cycles = self.cycles + 12;
                pc = wadd16(pc, 1);
            },
            0xd2 => {
                // JP cc,nn
                let val = self.read_u16(mm, wadd16(pc, 1));
                if !self.carry() {
                    self.cycles = self.cycles + 16;
                    pc = val;
                } else {
                    self.cycles = self.cycles + 12;
                    pc = wadd16(pc, 3);
                }
            },
            0xd4 => {
                // CALL cc,nn
                let val = self.read_u16(mm, wadd16(pc, 1));
                if !self.carry() {
                    let addr = wadd16(self.pc, 3);
                    self.stack_write_u16(mm, addr);
                    self.cycles = self.cycles + 24;
                    pc = val;
                } else {
                    self.cycles = self.cycles + 12;
                    pc = wadd16(pc, 3);
                }
            },
            0xd5 => {
                // PUSH DE
                let val = self.de();
                self.stack_write_u16(mm, val);
                self.cycles = self.cycles + 16;
                pc = wadd16(pc, 1);
            },
            0xd6 => {
                // SUB A,n
                let val = mm.read(wadd16(pc, 1));
                self.sub(val);
                self.cycles = self.cycles + 8;
                pc = wadd16(pc, 2);
            },
            0xd7 => {
                // RST 0x10
                let addr = wadd16(self.pc, 1);
                self.stack_write_u16(mm, addr);
                self.cycles = self.cycles + 16;
                pc = 0x10;
            },
            0xd8 => {
                // RET cc
                if self.carry() {
                    let addr = self.stack_read_u16(mm);
                    self.cycles = self.cycles + 20;
                    pc = addr;
                } else {
                    self.cycles = self.cycles + 8;
                    pc = wadd16(pc, 1);
                }
            },
            0xd9 => {
                // RETI: IME is restored at once
                mm.ei();
                let addr = self.stack_read_u16(mm);
                self.cycles = self.cycles + 16;
                pc = addr;
            },
            0xda => {
                // JP cc,nn
                let val = self.read_u16(mm, wadd16(pc, 1));
                if self.carry() {
                    self.cycles = self.cycles + 16;
                    pc = val;
                } else {
                    self.cycles = self.cycles + 12;
                    pc = wadd16(pc, 3);
                }
            },
            0xdc => {
                // CALL cc,nn
                let val = self.read_u16(mm, wadd16(pc, 1));
                if self.carry() {
                    let addr = wadd16(self.pc, 3);
                    self.stack_write_u16(mm, addr);
                    self.cycles = self.cycles + 24;
                    pc = val;
                } else {
                    self.cycles = self.cycles + 12;
                    pc = wadd16(pc, 3);
                }
            },
            0xde => {
                // SBC A,n
                let val = mm.read(wadd16(pc, 1));
                self.sbc(val);
                self.cycles = self.cycles + 8;
                pc = wadd16(pc, 2);
            },
            0xdf => {
                // RST 0x18
                let addr = wadd16(self.pc, 1);
                self.stack_write_u16(mm, addr);
                self.cycles = self.cycles + 16;
                pc = 0x18;
            },
            0xe0 => {
                // LDH (n),A
                let val = mm.read(wadd16(pc, 1));
                let addr: u16 = 0xff00 + val as u16;
                mm.write(addr, self.a);
                self.cycles = self.cycles + 12;
                pc = wadd16(pc, 2);
            },
            0xe1 => {
                // POP HL
                let val = self.stack_read_u16(mm);
                self.set_hl(val);
                self.cycles = self.cycles + 12;
                pc = wadd16(pc, 1);
            },
            0xe2 => {
                // LD (0xff00+C),A
                let addr: u16 = 0xff00 + self.c as u16;
                mm.write(addr, self.a);
                self.cycles = self.cycles + 8;
                pc = wadd16(pc, 1);
            },
            0xe5 => {
                // PUSH HL
                let val = self.hl();
                self.stack_write_u16(mm, val);
                self.cycles = self.cycles + 16;
                pc = wadd16(pc, 1);
            },
            0xe6 => {
                // AND A,n
                let val = mm.read(wadd16(pc, 1));
                self.and(val);
                self.cycles = self.cycles + 8;
                pc = wadd16(pc, 2);
            },
            0xe7 => {
                // RST 0x20
                let addr = wadd16(self.pc, 1);
                self.stack_write_u16(mm, addr);
                self.cycles = self.cycles + 16;
                pc = 0x20;
            },
            0xe8 => {
                // ADD SP,e
                let val = mm.read(wadd16(pc, 1));
                let sp = self.sp;
                self.sp = wadd16(sp, sign_ext(val));
                self.set_zero(false);
                self.set_subtract(false);
                self.flag_h = sp % 16 + (val % 16) as u16 > 15;
                self.flag_c = sp % 256 + val as u16 > 255;
                self.cycles = self.cycles + 16;
                pc = wadd16(pc, 2);
            },
            0xe9 => {
                // JP HL
                self.cycles = self.cycles + 4;
                pc = self.hl();
            },
            0xea => {
                // LD (nn),A
                let val = self.read_u16(mm, wadd16(pc, 1));
                mm.write(val, self.a);
                self.cycles = self.cycles + 16;
                pc = wadd16(pc, 3);
            },
            0xee => {
                // XOR A,n
                let val = mm.read(wadd16(pc, 1));
                self.xor(val);
                self.cycles = self.cycles + 8;
                pc = wadd16(pc, 2);
            },
            0xef => {
                // RST 0x28
                let addr = wadd16(self.pc, 1);
                self.stack_write_u16(mm, addr);
                self.cycles = self.cycles + 16;
                pc = 0x28;
            },
            0xf0 => {
                // LDH A,(n)
                let val = mm.read(wadd16(pc, 1));
                let addr: u16 = 0xff00 + val as u16;
                self.a = mm.read(addr);
                self.cycles = self.cycles + 12;
                pc = wadd16(pc, 2);
            },
            0xf1 => {
                // POP AF
                let val = self.stack_read_u16(mm);
                self.set_af(val);
                self.cycles = self.cycles + 12;
                pc = wadd16(pc, 1);
            },
            0xf2 => {
                // LD A,(0xff00+C)
                let addr: u16 = 0xff00 + self.c as u16;
                self.a = mm.read(addr);
                self.cycles = self.cycles + 8;
                pc = wadd16(pc, 1);
            },
            0xf3 => {
                // DI: IME is cleared at once
                mm.di();
                self.cycles = self.cycles + 4;
                pc = wadd16(pc, 1);
            },
            0xf5 => {
                // PUSH AF
                let val = self.af();
                self.stack_write_u16(mm, val);
                self.cycles = self.cycles + 16;
                pc = wadd16(pc, 1);
            },
            0xf6 => {
                // OR A,n
                let val = mm.read(wadd16(pc, 1));
                self.or(val);
                self.cycles = self.cycles + 8;
                pc = wadd16(pc, 2);
            },
            0xf7 => {
                // RST 0x30
                let addr = wadd16(self.pc, 1);
                self.stack_write_u16(mm, addr);
                self.cycles = self.cycles + 16;
                pc = 0x30;
            },
            0xf8 => {
                // LD HL,SP+e
                let val = mm.read(wadd16(pc, 1));
                let sp = self.sp;
                self.set_hl(wadd16(sp, sign_ext(val)));
                self.set_zero(false);
                self.set_subtract(false);
                self.flag_h = sp % 16 + (val % 16) as u16 > 15;
                self.flag_c = sp % 256 + val as u16 > 255;
                self.cycles = self.cycles + 12;
                pc = wadd16(pc, 2);
            },
            0xf9 => {
                // LD SP,HL
                self.sp = self.hl();
                self.cycles = self.cycles + 8;
                pc = wadd16(pc, 1);
            },
            0xfa => {
                // LD A,(nn)
                let addr = self.read_u16(mm, wadd16(pc, 1));
                self.a = mm.read(addr);
                self.cycles = self.cycles + 16;
                pc = wadd16(pc, 3);
            },
            0xfb => {
                // EI: IME is set at once
                mm.ei();
                self.cycles = self.cycles + 4;
                pc = wadd16(pc, 1);
            },
            0xfe => {
                // CP A,n
                let val = mm.read(wadd16(pc, 1));
                self.cp(val);
                self.cycles = self.cycles + 8;
                pc = wadd16(pc, 2);
            },
            0xff => {
                // RST 0x38
                let addr = wadd16(self.pc, 1);
                self.stack_write_u16(mm, addr);
                self.cycles = self.cycles + 16;
                pc = 0x38;
            },
            _ => {
                proof {
                    assert(false);
                }
            },
        }
        self.pc = pc;
    }

    /// One CPU step. While halted it advances a fixed 16-cycle quantum
    /// and only checks for interrupts; otherwise it fetches the opcode at
    /// PC and executes it exactly as `spec_step` says. Either way the
    /// step ends with one interrupt-service check, which may service the
    /// highest-priority pending interrupt for 20 more cycles. Returns the
    /// cumulative cycle count.
    ///
    /// Callers keep the eleven undefined opcodes out: executing one is
    /// fatal on this hardware, so it is rejected by precondition.
    pub fn run(&mut self, mm: &mut MemoryMap) -> (r: u64)
        requires
            old(mm).wf(),
            old(self).cycles + 64 <= u64::MAX,
            old(self).halt || spec_opcode_defined(spec_read(old(mm)@, old(self).pc)),
        ensures
            final(mm).wf(),
            r == final(self).cycles,
            old(self).cycles <= final(self).cycles,
            final(self).cycles <= old(self).cycles + 64,
            old(self).halt && pending_vector(old(mm)@.ints) is None ==> *final(self) == (Cpu {
                cycles: (old(self).cycles + 16) as u64,
                ..*old(self)
            }) && final(mm)@ == old(mm)@,
            old(self).halt ==> (pending_vector(old(mm)@.ints) matches Some(sv) ==> *final(self)
                == serviced_cpu(
                (Cpu { cycles: (old(self).cycles + 16) as u64, ..*old(self) }),
                sv.1,
            ) && final(mm)@ == serviced_mem(
                old(mm)@,
                sv.0,
                (Cpu { cycles: (old(self).cycles + 16) as u64, ..*old(self) }),
            )),
            final(mm)@.rom == old(mm)@.rom,
            !old(self).halt ==> ({
                let s = spec_step(*old(self), old(mm)@);
                &&& (pending_vector(s.1.ints) is None ==> *final(self) == s.0 && final(mm)@
                    == s.1)
                &&& (pending_vector(s.1.ints) matches Some(sv) ==> *final(self) == serviced_cpu(
                    s.0,
                    sv.1,
                ) && final(mm)@ == serviced_mem(s.1, sv.0, s.0))
            }),
    {
        if self.halt {
            self.cycles = self.cycles + 16;
            self.service_interrupts(mm);
            return self.cycles;
        }

        let op = mm.read(self.pc);
        if op < 0x10 {
            self.exec_row0(mm, op);
        } else if op < 0x20 {
            self.exec_row1(mm, op);
        } else if op < 0x30 {
            self.exec_row2(mm, op);
        } else if op < 0x40 {
            self.exec_row3(mm, op);
        } else if op < 0x80 {
            self.exec_mov(mm, op);
        } else if op < 0xc0 {
            self.exec_alu(mm, op);
        } else {
            self.exec_high(mm, op);
        }

        self.service_interrupts(mm);
        self.cycles
    }
}

} // verus!

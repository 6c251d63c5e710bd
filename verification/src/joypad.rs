//! Joypad state: the eight logical keys and the joypad register, whose two
//! selectable low-nibble views report pressed keys as cleared bits.

use vstd::prelude::*;

use crate::interrupt::InterruptController;
use crate::interrupt::INTERRUPT_JOYPAD;
use crate::interrupt::with_bit;

verus! {

/// The logical key set delivered by the host's input source.
pub enum Key {
    Up,
    Down,
    Left,
    Right,
    A,
    B,
    Select,
    Start,
}

pub struct Joypad {
    /// The joypad register: bits 4/5 select a key group (active low),
    /// bits 0..3 report the selected group's keys (pressed = 0).
    pub flags: u8,
    pub up: bool,
    pub down: bool,
    pub left: bool,
    pub right: bool,
    pub b: bool,
    pub a: bool,
    pub select: bool,
    pub start: bool,
}

/// The register value after refreshing the low nibble from the key state:
/// start from all four key bits released, then clear each bit whose key is
/// pressed in a selected group. Both groups may be selected at once.
pub open spec fn flags_after(j: Joypad) -> u8 {
    let base = j.flags - j.flags % 16 + 15;
    let dir = base as int / 16 % 2 == 0;
    let btn = base as int / 32 % 2 == 0;
    let c0 = (dir && j.right) || (btn && j.a);
    let c1 = (dir && j.left) || (btn && j.b);
    let c2 = (dir && j.up) || (btn && j.select);
    let c3 = (dir && j.down) || (btn && j.start);
    (base - (if c0 { 1int } else { 0int }) - (if c1 { 2int } else { 0int }) - (if c2 {
        4int
    } else {
        0int
    }) - (if c3 { 8int } else { 0int })) as u8
}

/// The key state after one press or release event.
pub open spec fn key_applied(j: Joypad, key: Key, pressed: bool) -> Joypad {
    match key {
        Key::Up => Joypad { up: pressed, ..j },
        Key::Down => Joypad { down: pressed, ..j },
        Key::Left => Joypad { left: pressed, ..j },
        Key::Right => Joypad { right: pressed, ..j },
        Key::A => Joypad { a: pressed, ..j },
        Key::B => Joypad { b: pressed, ..j },
        Key::Select => Joypad { select: pressed, ..j },
        Key::Start => Joypad { start: pressed, ..j },
    }
}

impl Joypad {
    pub fn new() -> (r: Joypad)
        ensures
            r.flags == 0xff,
            !r.up && !r.down && !r.left && !r.right,
            !r.b && !r.a && !r.select && !r.start,
    {
        Joypad {
            flags: 0xff,
            up: false,
            down: false,
            left: false,
            right: false,
            b: false,
            a: false,
            select: false,
            start: false,
        }
    }

    /// Refreshes the register's low nibble from the key state and the
    /// group-select bits currently in the register.
    pub fn set_flags(&mut self)
        ensures
            *final(self) == (Joypad { flags: flags_after(*old(self)), ..*old(self) }),
    {
        let mut fl: u8 = self.flags - self.flags % 16 + 15;
        let dir = fl / 16 % 2 == 0;
        let btn = fl / 32 % 2 == 0;
        if (dir && self.right) || (btn && self.a) {
            fl = fl - 1;
        }
        if (dir && self.left) || (btn && self.b) {
            fl = fl - 2;
        }
        if (dir && self.up) || (btn && self.select) {
            fl = fl - 4;
        }
        if (dir && self.down) || (btn && self.start) {
            fl = fl - 8;
        }
        self.flags = fl;
    }

    /// One press or release event from the host: records the key, refreshes
    /// the register, and requests a Joypad interrupt while IME is set.
    pub fn handle_input(&mut self, ints: &mut InterruptController, key: Key, pressed: bool)
        ensures
            *final(self) == (Joypad {
                flags: flags_after(key_applied(*old(self), key, pressed)),
                ..key_applied(*old(self), key, pressed)
            }),
            *final(ints) == (if old(ints).master_enable {
                InterruptController { flag: with_bit(old(ints).flag, INTERRUPT_JOYPAD), ..*old(
                    ints,
                ) }
            } else {
                *old(ints)
            }),
    {
        match key {
            Key::Up => {
                self.up = pressed;
            },
            Key::Down => {
                self.down = pressed;
            },
            Key::Left => {
                self.left = pressed;
            },
            Key::Right => {
                self.right = pressed;
            },
            Key::A => {
                self.a = pressed;
            },
            Key::B => {
                self.b = pressed;
            },
            Key::Select => {
                self.select = pressed;
            },
            Key::Start => {
                self.start = pressed;
            },
        }

        self.set_flags();

        if ints.master_enable {
            ints.raise(INTERRUPT_JOYPAD);
        }
    }
}

} // verus!

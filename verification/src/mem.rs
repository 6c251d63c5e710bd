//! Memory map: routes the 16-bit address space to ROM (with bank
//! switching), video RAM, external RAM behind an enable latch, work RAM and
//! its echo, OAM, high RAM, the I/O port decode, and the interrupt
//! registers. The whole map is specified by `spec_read` and `spec_write`.

use vstd::prelude::*;

use crate::interrupt::InterruptController;
use crate::interrupt::bit_set;
use crate::interrupt::without_bit;
use crate::interrupt::is_source_bit;
use crate::joypad::Joypad;
use crate::joypad::flags_after;
use crate::lcd::Lcd;
use crate::sound::Sound;
use crate::sound::SoundModel;
use crate::sound::reg_read;
use crate::sound::reg_write;
use crate::timer::Timer;

verus! {

/// The memory map owns every peripheral's state; the CPU and the host
/// reach them through it.
pub struct MemoryMap {
    /// Cartridge image; never written.
    pub rom: Vec<u8>,
    pub vram: Vec<u8>,
    pub wram: Vec<u8>,
    pub hram: Vec<u8>,
    /// Battery-backed external RAM and its enable latch.
    pub eram: Vec<u8>,
    pub eram_enabled: bool,
    pub oam: Vec<u8>,
    /// Currently selected switchable ROM bank.
    pub rom_bank: u8,
    pub ints: InterruptController,
    pub lcd: Lcd,
    pub timer: Timer,
    pub joypad: Joypad,
    pub sound: Sound,
}

/// The memory map as mathematics: byte sequences for the RAM regions plus
/// the peripherals' register state.
#[verifier::ext_equal]
pub struct MemState {
    pub rom: Seq<u8>,
    pub vram: Seq<u8>,
    pub wram: Seq<u8>,
    pub hram: Seq<u8>,
    pub eram: Seq<u8>,
    pub eram_enabled: bool,
    pub oam: Seq<u8>,
    pub rom_bank: u8,
    pub ints: InterruptController,
    pub lcd: Lcd,
    pub timer: Timer,
    pub joypad: Joypad,
    pub sound: SoundModel,
}

impl View for MemoryMap {
    type V = MemState;

    open spec fn view(&self) -> MemState {
        MemState {
            rom: self.rom@,
            vram: self.vram@,
            wram: self.wram@,
            hram: self.hram@,
            eram: self.eram@,
            eram_enabled: self.eram_enabled,
            oam: self.oam@,
            rom_bank: self.rom_bank,
            ints: self.ints,
            lcd: self.lcd,
            timer: self.timer,
            joypad: self.joypad,
            sound: self.sound@,
        }
    }
}

/// The byte a read of an I/O port returns; unmapped ports read 0.
pub closed spec fn spec_ioport_read(m: MemState, addr: u16) -> u8 {
    if addr == 0xff00 {
        m.joypad.flags
    } else if addr == 0xff04 {
        m.timer.div
    } else if addr == 0xff05 {
        m.timer.tima
    } else if addr == 0xff06 {
        m.timer.tma
    } else if addr == 0xff07 {
        m.timer.tac
    } else if addr == 0xff0f {
        m.ints.flag
    } else if 0xff10 <= addr && addr <= 0xff3f {
        reg_read(m.sound, addr)
    } else if addr == 0xff40 {
        m.lcd.ctl
    } else if addr == 0xff41 {
        m.lcd.stat
    } else if addr == 0xff42 {
        m.lcd.scy
    } else if addr == 0xff43 {
        m.lcd.scx
    } else if addr == 0xff44 {
        m.lcd.ly
    } else if addr == 0xff45 {
        m.lcd.lyc
    } else if addr == 0xff47 {
        m.lcd.bgp
    } else if addr == 0xff48 {
        m.lcd.obp0
    } else if addr == 0xff49 {
        m.lcd.obp1
    } else if addr == 0xff4a {
        m.lcd.wy
    } else if addr == 0xff4b {
        m.lcd.wx
    } else {
        0
    }
}

/// The byte a read of `addr` returns. ROM reads beyond the image's length
/// and reads of unmapped addresses return 0.
pub closed spec fn spec_read(m: MemState, addr: u16) -> u8 {
    if addr < 0x4000 {
        if addr < m.rom.len() {
            m.rom[addr as int]
        } else {
            0
        }
    } else if addr < 0x8000 {
        let i = m.rom_bank * 0x4000 + (addr - 0x4000);
        if i < m.rom.len() {
            m.rom[i as int]
        } else {
            0
        }
    } else if addr < 0xa000 {
        m.vram[addr - 0x8000]
    } else if addr < 0xc000 {
        m.eram[addr - 0xa000]
    } else if addr < 0xe000 {
        m.wram[addr - 0xc000]
    } else if addr < 0xfe00 {
        m.wram[addr - 0xe000]
    } else if addr < 0xfea0 {
        m.oam[addr - 0xfe00]
    } else if addr < 0xff00 {
        0
    } else if addr < 0xff80 {
        spec_ioport_read(m, addr)
    } else if addr < 0xffff {
        m.hram[addr - 0xff80]
    } else {
        m.ints.enable
    }
}

/// The state after writing `val` to an I/O port: stores into the addressed
/// peripheral register; a write to the DMA port copies 0xa0 bytes from
/// page `val` into OAM; unmapped ports ignore the write.
pub closed spec fn spec_ioport_write(m: MemState, addr: u16, val: u8) -> MemState {
    if addr == 0xff00 {
        MemState {
            joypad: Joypad {
                flags: flags_after(Joypad { flags: val, ..m.joypad }),
                ..m.joypad
            },
            ..m
        }
    } else if addr == 0xff04 {
        MemState { timer: Timer { div: val, ..m.timer }, ..m }
    } else if addr == 0xff05 {
        MemState { timer: Timer { tima: val, ..m.timer }, ..m }
    } else if addr == 0xff06 {
        MemState { timer: Timer { tma: val, ..m.timer }, ..m }
    } else if addr == 0xff07 {
        MemState { timer: Timer { tac: val, ..m.timer }, ..m }
    } else if addr == 0xff0f {
        MemState { ints: InterruptController { flag: val, ..m.ints }, ..m }
    } else if 0xff10 <= addr && addr <= 0xff3f {
        MemState { sound: reg_write(m.sound, addr, val), ..m }
    } else if addr == 0xff40 {
        MemState { lcd: Lcd { ctl: val, ..m.lcd }, ..m }
    } else if addr == 0xff41 {
        MemState { lcd: Lcd { stat: val, ..m.lcd }, ..m }
    } else if addr == 0xff42 {
        MemState { lcd: Lcd { scy: val, ..m.lcd }, ..m }
    } else if addr == 0xff43 {
        MemState { lcd: Lcd { scx: val, ..m.lcd }, ..m }
    } else if addr == 0xff44 {
        MemState { lcd: Lcd { ly: val, ..m.lcd }, ..m }
    } else if addr == 0xff45 {
        MemState { lcd: Lcd { lyc: val, ..m.lcd }, ..m }
    } else if addr == 0xff46 {
        MemState { oam: Seq::new(0xa0, |i: int| spec_read(m, (val * 0x100 + i) as u16)), ..m }
    } else if addr == 0xff47 {
        MemState { lcd: Lcd { bgp: val, ..m.lcd }, ..m }
    } else if addr == 0xff48 {
        MemState { lcd: Lcd { obp0: val, ..m.lcd }, ..m }
    } else if addr == 0xff49 {
        MemState { lcd: Lcd { obp1: val, ..m.lcd }, ..m }
    } else if addr == 0xff4a {
        MemState { lcd: Lcd { wy: val, ..m.lcd }, ..m }
    } else if addr == 0xff4b {
        MemState { lcd: Lcd { wx: val, ..m.lcd }, ..m }
    } else {
        m
    }
}

/// The state after writing `val` to `addr`. Writes to the ROM ranges only
/// drive the external-RAM latch and the bank select; bank-select values
/// 0x00, 0x20, 0x40 and 0x60 alias to the following bank. Writes to
/// unmapped addresses are ignored.
pub closed spec fn spec_write(m: MemState, addr: u16, val: u8) -> MemState {
    if addr < 0x2000 {
        MemState { eram_enabled: val % 16 == 0xa, ..m }
    } else if addr < 0x4000 {
        MemState {
            rom_bank: if val == 0x00 || val == 0x20 || val == 0x40 || val == 0x60 {
                (val + 1) as u8
            } else {
                val
            },
            ..m
        }
    } else if addr < 0x8000 {
        m
    } else if addr < 0xa000 {
        MemState { vram: m.vram.update(addr - 0x8000, val), ..m }
    } else if addr < 0xc000 {
        MemState { eram: m.eram.update(addr - 0xa000, val), ..m }
    } else if addr < 0xe000 {
        MemState { wram: m.wram.update(addr - 0xc000, val), ..m }
    } else if addr < 0xfe00 {
        MemState { wram: m.wram.update(addr - 0xe000, val), ..m }
    } else if addr < 0xfea0 {
        MemState { oam: m.oam.update(addr - 0xfe00, val), ..m }
    } else if addr < 0xff00 {
        m
    } else if addr < 0xff80 {
        spec_ioport_write(m, addr, val)
    } else if addr < 0xffff {
        MemState { hram: m.hram.update(addr - 0xff80, val), ..m }
    } else {
        MemState { ints: InterruptController { enable: val, ..m.ints }, ..m }
    }
}

/// Writes never change the cartridge image, whatever the address or value.
pub proof fn lemma_rom_is_readonly(m: MemState, addr: u16, val: u8)
    ensures
        spec_write(m, addr, val).rom == m.rom,
{
}

/// The ROM bank a bank-select write picks: the four alias values select
/// the following bank, so banks 0x00, 0x20, 0x40 and 0x60 are never
/// selected by their own number.
pub proof fn lemma_bank_select_alias(m: MemState, addr: u16, val: u8)
    requires
        0x2000 <= addr < 0x4000,
    ensures
        spec_write(m, addr, val).rom_bank == (if val == 0x00 || val == 0x20 || val == 0x40
            || val == 0x60 {
            (val + 1) as u8
        } else {
            val
        }),
        spec_write(m, addr, val).rom_bank != 0x00,
        spec_write(m, addr, val).rom_bank != 0x20,
        spec_write(m, addr, val).rom_bank != 0x40,
        spec_write(m, addr, val).rom_bank != 0x60,
{
}

/// A byte written to RAM is the byte read back from the same address, for
/// every address in video RAM, external RAM, work RAM and its echo, OAM,
/// and high RAM.
pub proof fn lemma_ram_write_read(m: MemState, addr: u16, val: u8)
    requires
        m.vram.len() == 0x2000,
        m.wram.len() == 0x2000,
        m.hram.len() == 0x80,
        m.eram.len() == 0x2000,
        m.oam.len() == 0xa0,
        (0x8000 <= addr < 0xfea0) || (0xff80 <= addr < 0xffff),
    ensures
        spec_read(spec_write(m, addr, val), addr) == val,
{
}

/// The stack round trip at the memory level: pushing a 16-bit value as
/// two bytes at adjacent RAM addresses and reading the same addresses
/// back recovers both bytes, for every RAM position of the stack. The
/// work-RAM echo never aliases two adjacent addresses, so the two writes
/// cannot disturb one another.
pub proof fn lemma_stack_push_pop(m: MemState, sp2: u16, hi: u8, lo: u8)
    requires
        m.vram.len() == 0x2000,
        m.wram.len() == 0x2000,
        m.hram.len() == 0x80,
        m.eram.len() == 0x2000,
        m.oam.len() == 0xa0,
        (0x8000 <= sp2 < 0xfe9f) || (0xff80 <= sp2 < 0xfffe),
    ensures
        spec_read(spec_write(spec_write(m, (sp2 + 1) as u16, hi), sp2, lo), sp2) == lo,
        spec_read(spec_write(spec_write(m, (sp2 + 1) as u16, hi), sp2, lo), (sp2 + 1) as u16)
            == hi,
{
}

impl MemoryMap {
    /// Every region sized as the address decode expects.
    pub open spec fn wf(&self) -> bool {
        self.vram.len() == 0x2000 && self.wram.len() == 0x2000 && self.hram.len() == 0x80
            && self.eram.len() == 0x2000 && self.oam.len() == 0xa0 && self.sound.wf()
    }

    /// A fresh machine around the given cartridge image: every RAM region
    /// zeroed, bank 0 selected, external RAM disabled, interrupts idle,
    /// peripherals at power-on state.
    pub fn new(rom: Vec<u8>) -> (r: MemoryMap)
        ensures
            r.wf(),
            r@.rom == rom@,
            r@.vram == Seq::new(0x2000, |i: int| 0u8),
            r@.wram == Seq::new(0x2000, |i: int| 0u8),
            r@.hram == Seq::new(0x80, |i: int| 0u8),
            r@.eram == Seq::new(0x2000, |i: int| 0u8),
            r@.oam == Seq::new(0xa0, |i: int| 0u8),
            !r@.eram_enabled,
            r@.rom_bank == 0,
            r@.ints.enable == 0 && r@.ints.flag == 0 && !r@.ints.master_enable,
            r@.lcd.ctl == 0 && r@.lcd.stat == 0 && r@.lcd.scy == 0 && r@.lcd.scx == 0,
            r@.lcd.ly == 0 && r@.lcd.lyc == 0 && r@.lcd.wy == 0 && r@.lcd.wx == 0,
            r@.lcd.bgp == 0 && r@.lcd.obp0 == 0 && r@.lcd.obp1 == 0 && r@.lcd.dma == 0,
            r@.lcd.cycles == 0,
            r@.timer.div == 0 && r@.timer.tima == 0 && r@.timer.tma == 0 && r@.timer.tac == 0,
            r@.timer.last_tick == 0 && r@.timer.last_div_tick == 0,
            r@.joypad.flags == 0xff,
            !r@.joypad.up && !r@.joypad.down && !r@.joypad.left && !r@.joypad.right,
            !r@.joypad.a && !r@.joypad.b && !r@.joypad.select && !r@.joypad.start,
            r@.sound == crate::sound::spec_new(),
    {
        MemoryMap {
            rom,
            vram: zero_vec(0x2000),
            wram: zero_vec(0x2000),
            hram: zero_vec(0x80),
            eram: zero_vec(0x2000),
            eram_enabled: false,
            oam: zero_vec(0xa0),
            rom_bank: 0,
            ints: InterruptController::new(),
            lcd: Lcd::new(),
            timer: Timer::new(),
            joypad: Joypad::new(),
            sound: Sound::new(),
        }
    }

    /// Reads one I/O port.
    fn ioport_read(&self, addr: u16) -> (r: u8)
        requires
            self.wf(),
            0xff00 <= addr < 0xff80,
        ensures
            r == spec_ioport_read(self@, addr),
    {
        if addr == 0xff00 {
            self.joypad.flags
        } else if addr == 0xff04 {
            self.timer.div
        } else if addr == 0xff05 {
            self.timer.tima
        } else if addr == 0xff06 {
            self.timer.tma
        } else if addr == 0xff07 {
            self.timer.tac
        } else if addr == 0xff0f {
            self.ints.flag
        } else if 0xff10 <= addr && addr <= 0xff3f {
            self.sound.read_reg(addr)
        } else if addr == 0xff40 {
            self.lcd.ctl
        } else if addr == 0xff41 {
            self.lcd.stat
        } else if addr == 0xff42 {
            self.lcd.scy
        } else if addr == 0xff43 {
            self.lcd.scx
        } else if addr == 0xff44 {
            self.lcd.ly
        } else if addr == 0xff45 {
            self.lcd.lyc
        } else if addr == 0xff47 {
            self.lcd.bgp
        } else if addr == 0xff48 {
            self.lcd.obp0
        } else if addr == 0xff49 {
            self.lcd.obp1
        } else if addr == 0xff4a {
            self.lcd.wy
        } else if addr == 0xff4b {
            self.lcd.wx
        } else {
            0
        }
    }

    /// Reads one byte from anywhere in the address space.
    pub fn read(&self, addr: u16) -> (r: u8)
        requires
            self.wf(),
        ensures
            r == spec_read(self@, addr),
    {
        if addr < 0x4000 {
            if (addr as usize) < self.rom.len() {
                self.rom[addr as usize]
            } else {
                0
            }
        } else if addr < 0x8000 {
            let i: usize = self.rom_bank as usize * 0x4000 + (addr as usize - 0x4000);
            if i < self.rom.len() {
                self.rom[i]
            } else {
                0
            }
        } else if addr < 0xa000 {
            self.vram[(addr - 0x8000) as usize]
        } else if addr < 0xc000 {
            self.eram[(addr - 0xa000) as usize]
        } else if addr < 0xe000 {
            self.wram[(addr - 0xc000) as usize]
        } else if addr < 0xfe00 {
            self.wram[(addr - 0xe000) as usize]
        } else if addr < 0xfea0 {
            self.oam[(addr - 0xfe00) as usize]
        } else if addr < 0xff00 {
            0
        } else if addr < 0xff80 {
            self.ioport_read(addr)
        } else if addr < 0xffff {
            self.hram[(addr - 0xff80) as usize]
        } else {
            self.ints.enable
        }
    }

    /// The DMA trigger: copies 0xa0 bytes from page `val` into OAM as one
    /// synchronous block.
    fn perform_dma(&mut self, val: u8)
        requires
            old(self).wf(),
        ensures
            final(self).wf(),
            final(self)@ == (MemState {
                oam: Seq::new(0xa0, |i: int| spec_read(old(self)@, (val * 0x100 + i) as u16)),
                ..old(self)@
            }),
    {
        let src: u16 = val as u16 * 0x100;
        let mut buf: Vec<u8> = Vec::new();
        let mut i: usize = 0;
        while i < 0xa0
            invariant
                self == old(self),
                self.wf(),
                i <= 0xa0,
                buf@.len() == i,
                src == val * 0x100,
                forall|k: int|
                    0 <= k < i ==> buf@[k] == spec_read(old(self)@, (val * 0x100 + k) as u16),
            decreases 0xa0 - i,
        {
            let b = self.read(src + i as u16);
            buf.push(b);
            i = i + 1;
        }
        let mut j: usize = 0;
        while j < 0xa0
            invariant
                self.wf(),
                j <= 0xa0,
                buf@.len() == 0xa0,
                forall|k: int|
                    0 <= k < 0xa0 ==> buf@[k] == spec_read(old(self)@, (val * 0x100 + k) as u16),
                self@.oam.len() == 0xa0,
                forall|k: int| 0 <= k < j ==> self@.oam[k] == buf@[k],
                forall|k: int| j <= k < 0xa0 ==> self@.oam[k] == old(self)@.oam[k],
                (MemState { oam: old(self)@.oam, ..self@ }) == old(self)@,
            decreases 0xa0 - j,
        {
            let b = buf[j];
            self.oam[j] = b;
            j = j + 1;
        }
        proof {
            assert forall|k: int| 0 <= k < 0xa0 implies self@.oam[k] == spec_read(
                old(self)@,
                (val * 0x100 + k) as u16,
            ) by {
                assert(self@.oam[k] == buf@[k]);
            }
            assert(self@.oam =~= Seq::new(
                0xa0,
                |i: int| spec_read(old(self)@, (val * 0x100 + i) as u16),
            ));
            assert(self@ =~= (MemState {
                oam: Seq::new(0xa0, |i: int| spec_read(old(self)@, (val * 0x100 + i) as u16)),
                ..old(self)@
            }));
        }
    }

    /// Writes one I/O port.
    fn ioport_write(&mut self, addr: u16, val: u8)
        requires
            old(self).wf(),
            0xff00 <= addr < 0xff80,
        ensures
            final(self).wf(),
            final(self)@ == spec_ioport_write(old(self)@, addr, val),
    {
        if addr == 0xff00 {
            self.joypad.flags = val;
            self.joypad.set_flags();
        } else if addr == 0xff04 {
            self.timer.div = val;
        } else if addr == 0xff05 {
            self.timer.tima = val;
        } else if addr == 0xff06 {
            self.timer.tma = val;
        } else if addr == 0xff07 {
            self.timer.tac = val;
        } else if addr == 0xff0f {
            self.ints.flag = val;
        } else if 0xff10 <= addr && addr <= 0xff3f {
            let _ = self.sound.handle_addr(addr, true, val);
        } else if addr == 0xff40 {
            self.lcd.ctl = val;
        } else if addr == 0xff41 {
            self.lcd.stat = val;
        } else if addr == 0xff42 {
            self.lcd.scy = val;
        } else if addr == 0xff43 {
            self.lcd.scx = val;
        } else if addr == 0xff44 {
            self.lcd.ly = val;
        } else if addr == 0xff45 {
            self.lcd.lyc = val;
        } else if addr == 0xff46 {
            self.perform_dma(val);
        } else if addr == 0xff47 {
            self.lcd.bgp = val;
        } else if addr == 0xff48 {
            self.lcd.obp0 = val;
        } else if addr == 0xff49 {
            self.lcd.obp1 = val;
        } else if addr == 0xff4a {
            self.lcd.wy = val;
        } else if addr == 0xff4b {
            self.lcd.wx = val;
        }
    }

    /// Writes one byte anywhere in the address space; ROM and the unusable
    /// range reject writes without error.
    pub fn write(&mut self, addr: u16, val: u8)
        requires
            old(self).wf(),
        ensures
            final(self).wf(),
            final(self)@ == spec_write(old(self)@, addr, val),
            final(self)@.ints.master_enable == old(self)@.ints.master_enable,
            final(self)@.rom == old(self)@.rom,
    {
        if addr < 0x2000 {
            // External-RAM enable latch: a low nibble of 0xa enables.
            self.eram_enabled = val % 16 == 0xa;
        } else if addr < 0x4000 {
            // ROM bank select, with the alias quirk.
            if val == 0x00 || val == 0x20 || val == 0x40 || val == 0x60 {
                self.rom_bank = val + 1;
            } else {
                self.rom_bank = val;
            }
        } else if addr < 0x8000 {
            // External-RAM bank select and mode select are not modelled.
        } else if addr < 0xa000 {
            self.vram[(addr - 0x8000) as usize] = val;
        } else if addr < 0xc000 {
            self.eram[(addr - 0xa000) as usize] = val;
        } else if addr < 0xe000 {
            self.wram[(addr - 0xc000) as usize] = val;
        } else if addr < 0xfe00 {
            self.wram[(addr - 0xe000) as usize] = val;
        } else if addr < 0xfea0 {
            self.oam[(addr - 0xfe00) as usize] = val;
        } else if addr < 0xff00 {
            // Unusable range: writes are ignored.
        } else if addr < 0xff80 {
            self.ioport_write(addr, val);
        } else if addr < 0xffff {
            self.hram[(addr - 0xff80) as usize] = val;
        } else {
            self.ints.enable = val;
        }
    }

    /// DI: clears the master enable at once.
    pub fn di(&mut self)
        requires
            old(self).wf(),
        ensures
            final(self).wf(),
            final(self)@ == (MemState {
                ints: InterruptController { master_enable: false, ..old(self)@.ints },
                ..old(self)@
            }),
    {
        self.ints.master_enable = false;
    }

    /// EI: sets the master enable at once.
    pub fn ei(&mut self)
        requires
            old(self).wf(),
        ensures
            final(self).wf(),
            final(self)@ == (MemState {
                ints: InterruptController { master_enable: true, ..old(self)@.ints },
                ..old(self)@
            }),
    {
        self.ints.master_enable = true;
    }

    /// The service-check primitive: true when IME is set and `interrupt`
    /// is both enabled and requested; in that case it also clears IME and
    /// the request bit, so at most one check per step can succeed.
    pub fn interrupt_triggered(&mut self, interrupt: u8) -> (r: bool)
        requires
            old(self).wf(),
            is_source_bit(interrupt),
        ensures
            final(self).wf(),
            r == (old(self)@.ints.master_enable && bit_set(old(self)@.ints.enable, interrupt)
                && bit_set(old(self)@.ints.flag, interrupt)),
            final(self)@ == (if r {
                MemState {
                    ints: InterruptController {
                        master_enable: false,
                        flag: without_bit(old(self)@.ints.flag, interrupt),
                        enable: old(self)@.ints.enable,
                    },
                    ..old(self)@
                }
            } else {
                old(self)@
            }),
    {
        if !self.ints.master_enable {
            return false;
        }

        let triggered = self.ints.enable_bit(interrupt) && self.ints.flag_bit(interrupt);
        if triggered {
            self.ints.master_enable = false;
            self.ints.clear(interrupt);
        }
        triggered
    }
}

/// A zeroed byte vector of the given length.
fn zero_vec(n: usize) -> (r: Vec<u8>)
    ensures
        r@ == Seq::new(n as nat, |i: int| 0u8),
{
    let mut v: Vec<u8> = Vec::new();
    let mut i: usize = 0;
    while i < n
        invariant
            v@.len() == i,
            i <= n,
            forall|k: int| 0 <= k < i ==> v@[k] == 0u8,
        decreases n - i,
    {
        v.push(0u8);
        i = i + 1;
    }
    proof {
        assert(v@ =~= Seq::new(n as nat, |i: int| 0u8));
    }
    v
}

} // verus!

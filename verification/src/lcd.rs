//! LCD: the four-mode scanline timing state machine with its STAT/VBlank
//! interrupt requests, and the tile/background/window/sprite drawing into
//! an indexed-shade framebuffer.
//!
//! The timing machine is the heart of this module and carries an exact
//! contract. Drawing fills pixels for the host to present; what the
//! pixels look like is the renderer's concern, but every drawing routine
//! is shown to touch nothing outside the current scanline's row.

use vstd::prelude::*;

use crate::interrupt::InterruptController;
use crate::interrupt::INTERRUPT_LCD_STAT;
use crate::interrupt::INTERRUPT_VBLANK;
use crate::interrupt::bit_set;
use crate::interrupt::pow2;
use crate::interrupt::spec_pow2;
use crate::interrupt::with_bit;

verus! {

/// Framebuffer size: 160 columns by 144 visible lines.
pub const PIXEL_COUNT: usize = 23040;

pub struct Lcd {
    /// LCD control.
    pub ctl: u8,
    /// Status: bits 0..2 are the mode, bits 3..6 per-mode interrupt enables.
    pub stat: u8,
    /// Scroll Y / X.
    pub scy: u8,
    pub scx: u8,
    /// Current scanline.
    pub ly: u8,
    /// Scanline compare.
    pub lyc: u8,
    /// Window position.
    pub wy: u8,
    pub wx: u8,
    /// Background and object palettes.
    pub bgp: u8,
    pub obp0: u8,
    pub obp1: u8,
    /// DMA source page register.
    pub dma: u8,
    /// Cycles accumulated inside the current mode.
    pub cycles: u64,
}

/// A four-shade palette decoded from a palette register.
#[derive(Clone, Copy)]
pub struct Palette {
    pub c0: u8,
    pub c1: u8,
    pub c2: u8,
    pub c3: u8,
}

pub open spec fn palette_wf(p: Palette) -> bool {
    p.c0 <= 3 && p.c1 <= 3 && p.c2 <= 3 && p.c3 <= 3
}

/// The shade written into the framebuffer for each of the four colors.
pub open spec fn spec_shade(color: u8) -> u8 {
    if color == 0 {
        0xff
    } else if color == 1 {
        0x92
    } else if color == 2 {
        0x49
    } else {
        0x00
    }
}

/// The framebuffer changed in at most one scanline: every pixel outside
/// row `row` is what it was.
pub open spec fn same_rows_except(old_p: Seq<u8>, new_p: Seq<u8>, row: int) -> bool {
    new_p.len() == old_p.len() && (forall|i: int|
        0 <= i < old_p.len() && i / 160 != row ==> new_p[i] == old_p[i])
}

/// One advance of the timing machine by `cycles` machine cycles: at most
/// one mode transition, with the interrupt requests the transition makes.
/// Yields the new LCD state, the new interrupt state, and whether VBlank
/// was entered.
pub open spec fn spec_run(l: Lcd, i: InterruptController, cycles: u64) -> (Lcd,
    InterruptController, bool) {
    let acc = l.cycles + cycles;
    let mode = l.stat % 4;
    if mode == 0 {
        // HBlank: after 201 cycles return to OAM scan.
        if acc > 201 {
            let l2 = Lcd { cycles: (acc - 201) as u64, stat: ((l.stat - mode) + 2) as u8, ..l };
            let i2 = if bit_set(l.stat, 32) && i.master_enable {
                InterruptController { flag: with_bit(i.flag, INTERRUPT_LCD_STAT), ..i }
            } else {
                i
            };
            (l2, i2, false)
        } else {
            (Lcd { cycles: acc as u64, ..l }, i, false)
        }
    } else if mode == 2 {
        // OAM scan: after 77 cycles move to transfer.
        if acc > 77 {
            (Lcd { cycles: (acc - 77) as u64, stat: ((l.stat - mode) + 3) as u8, ..l }, i, false)
        } else {
            (Lcd { cycles: acc as u64, ..l }, i, false)
        }
    } else if mode == 3 {
        // Transfer: after 169 cycles the line ends.
        if acc > 169 {
            let ly2 = ((l.ly + 1) % 256) as u8;
            let i1 = if bit_set(l.stat, 64) && ly2 == l.lyc && i.master_enable {
                InterruptController { flag: with_bit(i.flag, INTERRUPT_LCD_STAT), ..i }
            } else {
                i
            };
            if ly2 >= 144 {
                // The visible lines are done: enter VBlank.
                let i2 = if bit_set(l.stat, 16) && i1.master_enable {
                    InterruptController { flag: with_bit(i1.flag, INTERRUPT_LCD_STAT), ..i1 }
                } else {
                    i1
                };
                let i3 = if i2.master_enable {
                    InterruptController { flag: with_bit(i2.flag, INTERRUPT_VBLANK), ..i2 }
                } else {
                    i2
                };
                (
                    Lcd { cycles: (acc - 169) as u64, stat: ((l.stat - mode) + 1) as u8, ly: ly2, ..l },
                    i3,
                    true,
                )
            } else {
                let i2 = if bit_set(l.stat, 8) && i1.master_enable {
                    InterruptController { flag: with_bit(i1.flag, INTERRUPT_LCD_STAT), ..i1 }
                } else {
                    i1
                };
                (Lcd { cycles: (acc - 169) as u64, stat: (l.stat - mode) as u8, ly: ly2, ..l }, i2, false)
            }
        } else {
            (Lcd { cycles: acc as u64, ..l }, i, false)
        }
    } else {
        // VBlank: one line every 456 cycles; after line 153 wrap to 0.
        if acc > 456 {
            let ly2: u8 = if l.ly >= 153 {
                0
            } else {
                (l.ly + 1) as u8
            };
            let i1 = if bit_set(l.stat, 64) && ly2 == l.lyc && i.master_enable {
                InterruptController { flag: with_bit(i.flag, INTERRUPT_LCD_STAT), ..i }
            } else {
                i
            };
            if ly2 == 0 {
                let i2 = if bit_set(l.stat, 8) && i1.master_enable {
                    InterruptController { flag: with_bit(i1.flag, INTERRUPT_LCD_STAT), ..i1 }
                } else {
                    i1
                };
                (
                    Lcd { cycles: (acc - 456) as u64, stat: (l.stat - mode) as u8, ly: ly2, ..l },
                    i2,
                    false,
                )
            } else {
                (Lcd { cycles: (acc - 456) as u64, ly: ly2, ..l }, i1, false)
            }
        } else {
            (Lcd { cycles: acc as u64, ..l }, i, false)
        }
    }
}

impl Lcd {
    pub fn new() -> (r: Lcd)
        ensures
            r.ctl == 0,
            r.stat == 0,
            r.scy == 0,
            r.scx == 0,
            r.ly == 0,
            r.lyc == 0,
            r.wy == 0,
            r.wx == 0,
            r.bgp == 0,
            r.obp0 == 0,
            r.obp1 == 0,
            r.dma == 0,
            r.cycles == 0,
    {
        Lcd {
            ctl: 0,
            stat: 0,
            scy: 0,
            scx: 0,
            ly: 0,
            lyc: 0,
            wy: 0,
            wx: 0,
            bgp: 0,
            obp0: 0,
            obp1: 0,
            dma: 0,
            cycles: 0,
        }
    }

    /// Tests one of the per-mode interrupt-enable bits in STAT.
    pub fn interrupt_enabled(&self, mask: u8) -> (r: bool)
        requires
            mask == 8 || mask == 16 || mask == 32 || mask == 64,
        ensures
            r == bit_set(self.stat, mask),
    {
        (self.stat / mask) % 2 == 1
    }

    /// Writes one pixel of the current scanline; coordinates outside the
    /// screen, or rows other than LY, are ignored.
    pub fn put_pixel(&self, pixels: &mut Vec<u8>, x: i32, y: i32, color: u8)
        requires
            old(pixels).len() == PIXEL_COUNT,
            color <= 3,
        ensures
            final(pixels)@ == (if 0 <= x < 160 && 0 <= y < 144 && y == self.ly {
                old(pixels)@.update(y * 160 + x, spec_shade(color))
            } else {
                old(pixels)@
            }),
    {
        if x < 0 || y < 0 || y >= 144 || x >= 160 {
            return ;
        }
        if y != self.ly as i32 {
            return ;
        }
        let idx: usize = (y as usize) * 160 + (x as usize);
        let shade: u8 = match color {
            0 => 0xff,
            1 => 0x92,
            2 => 0x49,
            _ => 0x00,
        };
        pixels[idx] = shade;
    }

    /// Draws one 8x8 tile from tile data at `tile_start_addr`, honouring
    /// the sprite flip flags; in sprite mode color 0 is transparent.
    pub fn draw_tile(
        &self,
        vram: &Vec<u8>,
        pixels: &mut Vec<u8>,
        x: i32,
        y: i32,
        tile_start_addr: u16,
        palette: Palette,
        oam_flags: u8,
        sprite: bool,
    )
        requires
            vram.len() == 0x2000,
            old(pixels).len() == PIXEL_COUNT,
            0x8000 <= tile_start_addr,
            tile_start_addr + 16 <= 0xa000,
            palette_wf(palette),
            -100000 <= x <= 100000,
            -100000 <= y <= 100000,
        ensures
            final(pixels).len() == PIXEL_COUNT,
            same_rows_except(old(pixels)@, final(pixels)@, self.ly as int),
    {
        let x_flip = (oam_flags / 32) % 2 == 1;
        let y_flip = (oam_flags / 64) % 2 == 1;
        let base: usize = (tile_start_addr - 0x8000) as usize;
        let mut j: u8 = 0;
        while j < 8
            invariant
                pixels.len() == PIXEL_COUNT,
                same_rows_except(old(pixels)@, pixels@, self.ly as int),
                j <= 8,
                vram.len() == 0x2000,
                base + 16 <= 0x2000,
                palette_wf(palette),
                -100000 <= x <= 100000,
                -100000 <= y <= 100000,
            decreases 8 - j,
        {
            let lo = vram[base + (j as usize) * 2];
            let hi = vram[base + (j as usize) * 2 + 1];
            let mut k: u8 = 0;
            while k < 8
                invariant
                    pixels.len() == PIXEL_COUNT,
                    same_rows_except(old(pixels)@, pixels@, self.ly as int),
                    j < 8,
                    k <= 8,
                    palette_wf(palette),
                    -100000 <= x <= 100000,
                    -100000 <= y <= 100000,
                decreases 8 - k,
            {
                let pw = pow2(k);
                let p: u8 = ((hi / pw) % 2) * 2 + ((lo / pw) % 2);
                let xpos: i32 = if x_flip {
                    x + k as i32
                } else {
                    x + 7 - k as i32
                };
                let ypos: i32 = if y_flip {
                    y + 7 - j as i32
                } else {
                    y + j as i32
                };
                if !(p == 0 && sprite) {
                    self.put_pixel(pixels, xpos, ypos, palette.col(p));
                }
                k = k + 1;
            }
            j = j + 1;
        }
    }

    /// Draws the first 192 tiles of tile data as a 16x12 grid; a debugging
    /// view of video memory.
    pub fn draw_tiles(&self, vram: &Vec<u8>, pixels: &mut Vec<u8>)
        requires
            vram.len() == 0x2000,
            old(pixels).len() == PIXEL_COUNT,
        ensures
            final(pixels).len() == PIXEL_COUNT,
            same_rows_except(old(pixels)@, final(pixels)@, self.ly as int),
    {
        let palette = Palette::from_byte(self.obp0);

        let mut tile_start_addr: u16 = 0x8000;
        let mut j: u8 = 0;
        while j < 12
            invariant
                pixels.len() == PIXEL_COUNT,
                same_rows_except(old(pixels)@, pixels@, self.ly as int),
                vram.len() == 0x2000,
                j <= 12,
                palette_wf(palette),
                tile_start_addr == 0x8000 + j * 256,
            decreases 12 - j,
        {
            let mut i: u8 = 0;
            while i < 16
                invariant
                    pixels.len() == PIXEL_COUNT,
                    same_rows_except(old(pixels)@, pixels@, self.ly as int),
                    vram.len() == 0x2000,
                    j < 12,
                    i <= 16,
                    palette_wf(palette),
                    tile_start_addr == 0x8000 + j * 256 + i * 16,
                decreases 16 - i,
            {
                self.draw_tile(
                    vram,
                    pixels,
                    i as i32 * 8,
                    j as i32 * 8,
                    tile_start_addr,
                    palette,
                    0,
                    false,
                );
                tile_start_addr = tile_start_addr + 16;
                i = i + 1;
            }
            j = j + 1;
        }
    }

    /// Base of the background tile map selected by LCD control bit 3.
    pub fn get_tile_map_addr(&self) -> (r: u16)
        ensures
            r == (if bit_set(self.ctl, 8) {
                0x9c00int
            } else {
                0x9800int
            }),
    {
        if (self.ctl / 8) % 2 == 1 {
            0x9c00
        } else {
            0x9800
        }
    }

    /// Base of the window tile map selected by LCD control bit 6.
    pub fn get_window_tile_map_addr(&self) -> (r: u16)
        ensures
            r == (if bit_set(self.ctl, 64) {
                0x9c00int
            } else {
                0x9800int
            }),
    {
        if (self.ctl / 64) % 2 == 1 {
            0x9c00
        } else {
            0x9800
        }
    }

    /// Start of a tile's data: from 0x8000 with an unsigned index when LCD
    /// control bit 4 is set, else from 0x9000 with a signed index.
    pub fn get_tile_start_addr(&self, tile: u8) -> (r: u16)
        ensures
            0x8000 <= r,
            r + 16 <= 0xa000,
            bit_set(self.ctl, 16) ==> r == 0x8000 + tile * 16,
            !bit_set(self.ctl, 16) && tile < 128 ==> r == 0x9000 + tile * 16,
            !bit_set(self.ctl, 16) && tile >= 128 ==> r == 0x8000 + tile * 16,
    {
        if (self.ctl / 16) % 2 == 1 {
            0x8000 + tile as u16 * 16
        } else {
            if tile >= 128 {
                // A negative signed index reaches 0x8800..0x9000.
                0x8000 + tile as u16 * 16
            } else {
                0x9000 + tile as u16 * 16
            }
        }
    }

    /// Draws the scrolled background rows that touch the current scanline.
    pub fn draw_bg(&self, vram: &Vec<u8>, pixels: &mut Vec<u8>)
        requires
            vram.len() == 0x2000,
            old(pixels).len() == PIXEL_COUNT,
        ensures
            final(pixels).len() == PIXEL_COUNT,
            same_rows_except(old(pixels)@, final(pixels)@, self.ly as int),
    {
        let palette = Palette::from_byte(self.bgp);

        if self.ctl % 2 == 0 {
            return ;
        }
        let tile_map_addr = self.get_tile_map_addr();

        let mut j: u8 = 0;
        while j < 19
            invariant
                pixels.len() == PIXEL_COUNT,
                same_rows_except(old(pixels)@, pixels@, self.ly as int),
                vram.len() == 0x2000,
                j <= 19,
                palette_wf(palette),
                tile_map_addr == 0x9800 || tile_map_addr == 0x9c00,
            decreases 19 - j,
        {
            let mut i: u8 = 0;
            while i < 21
                invariant
                    pixels.len() == PIXEL_COUNT,
                    same_rows_except(old(pixels)@, pixels@, self.ly as int),
                    vram.len() == 0x2000,
                    j < 19,
                    i <= 21,
                    palette_wf(palette),
                    tile_map_addr == 0x9800 || tile_map_addr == 0x9c00,
                decreases 21 - i,
            {
                let tile_pos_x: u16 = ((i + self.scx / 8) % 32) as u16;
                let tile_pos_y: u16 = ((j + self.scy / 8) % 32) as u16;
                let myaddr: u16 = tile_map_addr + tile_pos_y * 32 + tile_pos_x;
                let tile = vram[(myaddr - 0x8000) as usize];
                let tile_start_addr = self.get_tile_start_addr(tile);
                let x: i32 = i as i32 * 8 - (self.scx % 8) as i32;
                let y: i32 = j as i32 * 8 - (self.scy % 8) as i32;
                if self.ly as i32 >= y && self.ly as i32 <= y + 8 {
                    self.draw_tile(vram, pixels, x, y, tile_start_addr, palette, 0, false);
                }
                i = i + 1;
            }
            j = j + 1;
        }
    }

    /// Draws the window rows that touch the current scanline.
    pub fn draw_window(&self, vram: &Vec<u8>, pixels: &mut Vec<u8>)
        requires
            vram.len() == 0x2000,
            old(pixels).len() == PIXEL_COUNT,
        ensures
            final(pixels).len() == PIXEL_COUNT,
            same_rows_except(old(pixels)@, final(pixels)@, self.ly as int),
    {
        if (self.ctl / 32) % 2 == 0 {
            return ;
        }
        let palette = Palette::from_byte(self.bgp);
        let tile_map_addr = self.get_window_tile_map_addr();

        let mut j: u8 = 0;
        while j < 19
            invariant
                pixels.len() == PIXEL_COUNT,
                same_rows_except(old(pixels)@, pixels@, self.ly as int),
                vram.len() == 0x2000,
                j <= 19,
                palette_wf(palette),
                tile_map_addr == 0x9800 || tile_map_addr == 0x9c00,
            decreases 19 - j,
        {
            let mut i: u8 = 0;
            while i < 21
                invariant
                    pixels.len() == PIXEL_COUNT,
                    same_rows_except(old(pixels)@, pixels@, self.ly as int),
                    vram.len() == 0x2000,
                    j < 19,
                    i <= 21,
                    palette_wf(palette),
                    tile_map_addr == 0x9800 || tile_map_addr == 0x9c00,
                decreases 21 - i,
            {
                let tile_pos_x: u16 = (i % 32) as u16;
                let tile_pos_y: u16 = (j % 32) as u16;
                let myaddr: u16 = tile_map_addr + tile_pos_y * 32 + tile_pos_x;
                let tile = vram[(myaddr - 0x8000) as usize];
                let tile_start_addr = self.get_tile_start_addr(tile);
                let x: i32 = i as i32 * 8 + self.wx as i32 - 6;
                let y: i32 = j as i32 * 8 + self.wy as i32;
                if self.ly as i32 >= y && self.ly as i32 <= y + 8 {
                    self.draw_tile(vram, pixels, x, y, tile_start_addr, palette, 0, false);
                }
                i = i + 1;
            }
            j = j + 1;
        }
    }

    /// Draws one sprite tile if it touches the current scanline.
    pub fn draw_oam_tile(
        &self,
        vram: &Vec<u8>,
        pixels: &mut Vec<u8>,
        x: u8,
        y: u8,
        tile: u8,
        flags: u8,
    )
        requires
            vram.len() == 0x2000,
            old(pixels).len() == PIXEL_COUNT,
        ensures
            final(pixels).len() == PIXEL_COUNT,
            same_rows_except(old(pixels)@, final(pixels)@, self.ly as int),
    {
        let tile_start_addr: u16 = 0x8000 + tile as u16 * 16;
        let obp = if (flags / 16) % 2 == 1 {
            self.obp1
        } else {
            self.obp0
        };
        let palette = Palette::from_byte(obp);
        if self.ly as i32 >= y as i32 - 16 && self.ly as i32 <= y as i32 - 8 {
            self.draw_tile(
                vram,
                pixels,
                x as i32 - 8,
                y as i32 - 16,
                tile_start_addr,
                palette,
                flags,
                true,
            );
        }
    }

    /// Walks the 40 sprite entries and draws those on screen, as one 8x8
    /// tile or a pair of stacked tiles depending on the object-size bit.
    pub fn draw_oam(&self, vram: &Vec<u8>, oam: &Vec<u8>, pixels: &mut Vec<u8>)
        requires
            vram.len() == 0x2000,
            oam.len() == 0xa0,
            old(pixels).len() == PIXEL_COUNT,
        ensures
            final(pixels).len() == PIXEL_COUNT,
            same_rows_except(old(pixels)@, final(pixels)@, self.ly as int),
    {
        let is_8x8 = (self.ctl / 4) % 2 == 0;

        let mut i: usize = 0;
        while i < 40
            invariant
                pixels.len() == PIXEL_COUNT,
                same_rows_except(old(pixels)@, pixels@, self.ly as int),
                vram.len() == 0x2000,
                oam.len() == 0xa0,
                i <= 40,
            decreases 40 - i,
        {
            let y = oam[i * 4];
            let x = oam[i * 4 + 1];
            let tile = oam[i * 4 + 2];
            let flags = oam[i * 4 + 3];

            if y < 160 {
                if is_8x8 {
                    self.draw_oam_tile(vram, pixels, x, y, tile, flags);
                } else {
                    let even = tile - tile % 2;
                    let odd = tile - tile % 2 + 1;
                    if (flags / 64) % 2 == 1 {
                        self.draw_oam_tile(vram, pixels, x, y + 8, even, flags);
                        self.draw_oam_tile(vram, pixels, x, y, odd, flags);
                    } else {
                        self.draw_oam_tile(vram, pixels, x, y, even, flags);
                        self.draw_oam_tile(vram, pixels, x, y + 8, odd, flags);
                    }
                }
            }
            i = i + 1;
        }
    }

    /// Draws the current scanline's background, window and sprites when the
    /// LCD is enabled.
    pub fn draw(&self, vram: &Vec<u8>, oam: &Vec<u8>, pixels: &mut Vec<u8>)
        requires
            vram.len() == 0x2000,
            oam.len() == 0xa0,
            old(pixels).len() == PIXEL_COUNT,
        ensures
            final(pixels).len() == PIXEL_COUNT,
            same_rows_except(old(pixels)@, final(pixels)@, self.ly as int),
    {
        if (self.ctl / 128) % 2 == 0 {
            return ;
        }
        self.draw_bg(vram, pixels);
        self.draw_window(vram, pixels);
        self.draw_oam(vram, oam, pixels);
    }

    /// Advances the timing machine by the machine cycles the CPU reported,
    /// requesting interrupts at mode edges, and redraws on a scanline
    /// change. Returns whether VBlank was entered.
    #[verifier::rlimit(60)]
    pub fn run(
        &mut self,
        ints: &mut InterruptController,
        vram: &Vec<u8>,
        oam: &Vec<u8>,
        cycles: u64,
        pixels: &mut Vec<u8>,
    ) -> (vblank: bool)
        requires
            old(self).cycles + cycles <= u64::MAX,
            vram.len() == 0x2000,
            oam.len() == 0xa0,
            old(pixels).len() == PIXEL_COUNT,
        ensures
            (*final(self), *final(ints), vblank) == spec_run(*old(self), *old(ints), cycles),
            final(pixels).len() == PIXEL_COUNT,
            same_rows_except(old(pixels)@, final(pixels)@, final(self).ly as int),
    {
        let prev_ly = self.ly;
        let mut vblank = false;
        self.cycles = self.cycles + cycles;
        match self.stat % 4 {
            0 => {
                if self.cycles > 201 {
                    self.cycles = self.cycles - 201;
                    self.stat = self.stat - self.stat % 4 + 2;
                    if self.interrupt_enabled(32) && ints.master_enable {
                        ints.raise(INTERRUPT_LCD_STAT);
                    }
                }
            },
            2 => {
                if self.cycles > 77 {
                    self.cycles = self.cycles - 77;
                    self.stat = self.stat - self.stat % 4 + 3;
                }
            },
            3 => {
                if self.cycles > 169 {
                    self.cycles = self.cycles - 169;
                    self.stat = self.stat - self.stat % 4;
                    self.ly = if self.ly == 255 {
                        0
                    } else {
                        self.ly + 1
                    };
                    if self.interrupt_enabled(64) && self.ly == self.lyc && ints.master_enable {
                        ints.raise(INTERRUPT_LCD_STAT);
                    }
                    if self.ly >= 144 {
                        vblank = true;
                        if self.interrupt_enabled(16) && ints.master_enable {
                            ints.raise(INTERRUPT_LCD_STAT);
                        }
                        if ints.master_enable {
                            ints.raise(INTERRUPT_VBLANK);
                        }
                        self.stat = self.stat + 1;
                    } else {
                        if self.interrupt_enabled(8) && ints.master_enable {
                            ints.raise(INTERRUPT_LCD_STAT);
                        }
                    }
                }
            },
            _ => {
                if self.cycles > 456 {
                    self.cycles = self.cycles - 456;
                    self.ly = if self.ly >= 153 {
                        0
                    } else {
                        self.ly + 1
                    };
                    if self.interrupt_enabled(64) && self.ly == self.lyc && ints.master_enable {
                        ints.raise(INTERRUPT_LCD_STAT);
                    }
                    if self.ly == 0 {
                        self.stat = self.stat - self.stat % 4;
                        if self.interrupt_enabled(8) && ints.master_enable {
                            ints.raise(INTERRUPT_LCD_STAT);
                        }
                    }
                }
            },
        }

        if prev_ly != self.ly {
            // The scanline changed: redraw for the host.
            self.draw(vram, oam, pixels);
        }
        vblank
    }
}

impl Palette {
    /// Decodes the four two-bit colors of a palette register.
    pub fn from_byte(b: u8) -> (r: Palette)
        ensures
            r.c0 == b % 4,
            r.c1 == b as int / 4 % 4,
            r.c2 == b as int / 16 % 4,
            r.c3 == b as int / 64,
            palette_wf(r),
    {
        Palette { c0: b % 4, c1: b / 4 % 4, c2: b / 16 % 4, c3: b / 64 }
    }

    /// The palette's color for a two-bit pixel value.
    pub fn col(&self, p: u8) -> (r: u8)
        requires
            p <= 3,
            palette_wf(*self),
        ensures
            r <= 3,
            r == (if p == 0 {
                self.c0
            } else if p == 1 {
                self.c1
            } else if p == 2 {
                self.c2
            } else {
                self.c3
            }),
    {
        match p {
            0 => self.c0,
            1 => self.c1,
            2 => self.c2,
            _ => self.c3,
        }
    }
}

} // verus!

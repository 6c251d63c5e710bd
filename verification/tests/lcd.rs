use gbcore::interrupt::InterruptController;
use gbcore::lcd::Lcd;

fn frame_buffers() -> (Vec<u8>, Vec<u8>, Vec<u8>) {
    (vec![0u8; 0x2000], vec![0u8; 0xa0], vec![0u8; 160 * 144])
}

#[test]
fn test_lcd() {
    let lcd = Lcd::new();
    assert_eq!(lcd.ctl, 0);
}

#[test]
fn test_mode_progression() {
    let (vram, oam, mut pixels) = frame_buffers();
    let mut lcd = Lcd::new();
    let mut ints = InterruptController::new();
    // HBlank holds for 201 cycles before OAM scan.
    assert!(!lcd.run(&mut ints, &vram, &oam, 201, &mut pixels));
    assert_eq!(lcd.stat % 4, 0);
    assert!(!lcd.run(&mut ints, &vram, &oam, 1, &mut pixels));
    assert_eq!(lcd.stat % 4, 2);
    // OAM scan lasts 77 cycles, then transfer.
    assert!(!lcd.run(&mut ints, &vram, &oam, 78, &mut pixels));
    assert_eq!(lcd.stat % 4, 3);
    // Transfer lasts 169 cycles; leaving it ends the scanline.
    assert!(!lcd.run(&mut ints, &vram, &oam, 170, &mut pixels));
    assert_eq!(lcd.stat % 4, 0);
    assert_eq!(lcd.ly, 1);
}

#[test]
fn test_ppu_cadence() {
    // Feeding one frame's worth of reported CPU time, 70224 cycles, in
    // CPU-sized steps yields exactly one entry into VBlank, and LY comes
    // back around to 0.
    let (vram, oam, mut pixels) = frame_buffers();
    let mut lcd = Lcd::new();
    let mut ints = InterruptController::new();
    let mut vblanks: u32 = 0;
    let mut ly_wrapped = false;
    let mut entered_vblank = false;
    for _ in 0..(70224 / 4) {
        if lcd.run(&mut ints, &vram, &oam, 4, &mut pixels) {
            vblanks += 1;
            entered_vblank = true;
        }
        if entered_vblank && lcd.ly == 0 {
            ly_wrapped = true;
        }
    }
    assert_eq!(vblanks, 1);
    assert!(ly_wrapped);
    assert!(lcd.ly < 144);
}

#[test]
fn test_vblank_interrupts() {
    let (vram, oam, mut pixels) = frame_buffers();
    let mut lcd = Lcd::new();
    let mut ints = InterruptController::new();
    ints.master_enable = true;
    lcd.ly = 143;
    lcd.stat = 3;
    let vblank = lcd.run(&mut ints, &vram, &oam, 170, &mut pixels);
    assert!(vblank);
    assert_eq!(lcd.ly, 144);
    assert_eq!(lcd.stat % 4, 1);
    // The VBlank request bit is raised while IME is set.
    assert_eq!(ints.flag % 2, 1);
}

#[test]
fn test_vblank_gated_on_master_enable() {
    let (vram, oam, mut pixels) = frame_buffers();
    let mut lcd = Lcd::new();
    let mut ints = InterruptController::new();
    ints.master_enable = false;
    lcd.ly = 143;
    lcd.stat = 3;
    let vblank = lcd.run(&mut ints, &vram, &oam, 170, &mut pixels);
    assert!(vblank);
    assert_eq!(ints.flag, 0);
}

#[test]
fn test_coincidence_interrupt() {
    let (vram, oam, mut pixels) = frame_buffers();
    let mut lcd = Lcd::new();
    let mut ints = InterruptController::new();
    ints.master_enable = true;
    // Coincidence interrupts enabled, in transfer mode, LYC = next line.
    lcd.stat = 0x40 + 3;
    lcd.lyc = 1;
    lcd.run(&mut ints, &vram, &oam, 170, &mut pixels);
    assert_eq!(lcd.ly, 1);
    assert_eq!(ints.flag, 2);
}

#[test]
fn test_vblank_lines_count_456_cycles() {
    let (vram, oam, mut pixels) = frame_buffers();
    let mut lcd = Lcd::new();
    let mut ints = InterruptController::new();
    lcd.ly = 144;
    lcd.stat = 1;
    lcd.run(&mut ints, &vram, &oam, 456, &mut pixels);
    assert_eq!(lcd.ly, 144);
    lcd.run(&mut ints, &vram, &oam, 1, &mut pixels);
    assert_eq!(lcd.ly, 145);
}

#[test]
fn test_ly_wraps_after_153() {
    let (vram, oam, mut pixels) = frame_buffers();
    let mut lcd = Lcd::new();
    let mut ints = InterruptController::new();
    lcd.ly = 153;
    lcd.stat = 1;
    lcd.run(&mut ints, &vram, &oam, 457, &mut pixels);
    assert_eq!(lcd.ly, 0);
    assert_eq!(lcd.stat % 4, 0);
}

#[test]
fn test_put_pixel_shades() {
    let (_, _, mut pixels) = frame_buffers();
    let lcd = Lcd::new();
    // LY is 0, so only row 0 accepts pixels.
    lcd.put_pixel(&mut pixels, 0, 0, 3);
    assert_eq!(pixels[0], 0x00);
    lcd.put_pixel(&mut pixels, 1, 0, 0);
    assert_eq!(pixels[1], 0xff);
    lcd.put_pixel(&mut pixels, 2, 0, 1);
    assert_eq!(pixels[2], 0x92);
    lcd.put_pixel(&mut pixels, 3, 0, 2);
    assert_eq!(pixels[3], 0x49);
    // Off-screen and off-scanline writes are ignored.
    let before = pixels.clone();
    lcd.put_pixel(&mut pixels, -1, 0, 3);
    lcd.put_pixel(&mut pixels, 0, 5, 3);
    lcd.put_pixel(&mut pixels, 200, 0, 3);
    assert_eq!(pixels, before);
}

#[test]
fn test_draw_tiles_renders_first_row() {
    let (mut vram, _, mut pixels) = frame_buffers();
    for p in pixels.iter_mut() {
        *p = 0xaa;
    }
    // Tile 0, row 0: both bit planes all ones, color 3 across the row.
    vram[0] = 0xff;
    vram[1] = 0xff;
    let mut lcd = Lcd::new();
    // Palette: color 3 maps to shade index 3 (black).
    lcd.obp0 = 0b1110_0100;
    lcd.ly = 0;
    lcd.draw_tiles(&vram, &mut pixels);
    for x in 0..8 {
        assert_eq!(pixels[x], 0x00);
    }
    // The second tile's row 0 is color 0 under the identity palette.
    for x in 8..16 {
        assert_eq!(pixels[x], 0xff);
    }
}

#[test]
fn test_draw_background_scanline() {
    let (mut vram, oam, mut pixels) = frame_buffers();
    for p in pixels.iter_mut() {
        *p = 0xaa;
    }
    // Tile map entry 0 selects tile 0; with the unsigned addressing bit
    // set, its data sits at the start of video RAM.
    vram[0] = 0xff;
    vram[1] = 0xff;
    let mut lcd = Lcd::new();
    // LCD on, background on, unsigned tile data.
    lcd.ctl = 0x91;
    lcd.bgp = 0b1110_0100;
    lcd.ly = 0;
    lcd.draw(&vram, &oam, &mut pixels);
    for x in 0..8 {
        assert_eq!(pixels[x], 0x00);
    }
}

#[test]
fn test_draw_disabled_lcd_is_inert() {
    let (mut vram, oam, mut pixels) = frame_buffers();
    vram[0] = 0xff;
    vram[1] = 0xff;
    let mut lcd = Lcd::new();
    lcd.ctl = 0x00;
    lcd.bgp = 0b1110_0100;
    let before = pixels.clone();
    lcd.draw(&vram, &oam, &mut pixels);
    assert_eq!(pixels, before);
}

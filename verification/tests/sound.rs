use gbcore::sound::Sound;

#[test]
fn test_register_read_write() {
    let mut sound = Sound::new();
    let r = sound.handle_addr(0xff10, true, 0x5a);
    assert_eq!(r, 0x5a);
    assert_eq!(sound.nr10, 0x5a);
    assert_eq!(sound.handle_addr(0xff10, false, 0), 0x5a);
    // Unmapped addresses in the block read zero and ignore writes.
    assert_eq!(sound.handle_addr(0xff15, true, 0x77), 0);
    assert_eq!(sound.handle_addr(0xff15, false, 0), 0);
}

#[test]
fn test_volume_registers_reload_channel_volume() {
    let mut sound = Sound::new();
    sound.handle_addr(0xff12, true, 0xa7);
    assert_eq!(sound.nr12, 0xa7);
    assert_eq!(sound.ch1_volume, 0x0a);
    sound.handle_addr(0xff17, true, 0x3f);
    assert_eq!(sound.ch2_volume, 0x03);
    sound.handle_addr(0xff21, true, 0xf0);
    assert_eq!(sound.ch4_volume, 0x0f);
}

#[test]
fn test_wave_ram() {
    let mut sound = Sound::new();
    sound.handle_addr(0xff30, true, 0x12);
    sound.handle_addr(0xff3f, true, 0x34);
    assert_eq!(sound.handle_addr(0xff30, false, 0), 0x12);
    assert_eq!(sound.handle_addr(0xff3f, false, 0), 0x34);
    assert_eq!(sound.wave_ram[0], 0x12);
    assert_eq!(sound.wave_ram[15], 0x34);
}

#[test]
fn test_length_counter_silences_channel() {
    let mut sound = Sound::new();
    // Length 63: the shortest play time, one 1/256-second unit.
    sound.handle_addr(0xff11, true, 0x3f);
    // Full volume, no envelope.
    sound.handle_addr(0xff12, true, 0xf0);
    // Length enable for channel 1.
    sound.handle_addr(0xff14, true, 0x40);
    assert_eq!(sound.ch1_volume, 0x0f);
    sound.run(16384);
    assert_eq!(sound.ch1_volume, 0x0f);
    sound.run(1);
    assert_eq!(sound.ch1_volume, 0);
}

#[test]
fn test_length_counter_needs_enable_bit() {
    let mut sound = Sound::new();
    sound.handle_addr(0xff11, true, 0x3f);
    sound.handle_addr(0xff12, true, 0xf0);
    sound.run(100000);
    assert_eq!(sound.ch1_volume, 0x0f);
}

#[test]
fn test_envelope_steps_volume_down() {
    let mut sound = Sound::new();
    // Volume 10, decrease, period 1: one step per 65536 cycles.
    sound.handle_addr(0xff12, true, 0xa1);
    assert_eq!(sound.ch1_volume, 0x0a);
    sound.run(65536);
    assert_eq!(sound.ch1_volume, 0x0a);
    sound.run(1);
    assert_eq!(sound.ch1_volume, 0x09);
    assert_eq!(sound.ch1_envelope_cycles, 1);
}

#[test]
fn test_envelope_steps_volume_up_and_saturates() {
    let mut sound = Sound::new();
    // Volume 14, increase, period 1.
    sound.handle_addr(0xff21, true, 0xe9);
    assert_eq!(sound.ch4_volume, 0x0e);
    sound.run(65537);
    assert_eq!(sound.ch4_volume, 0x0f);
    sound.run(65537);
    // The envelope saturates at 15.
    assert_eq!(sound.ch4_volume, 0x0f);
}

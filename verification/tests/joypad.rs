use gbcore::interrupt::InterruptController;
use gbcore::joypad::Joypad;
use gbcore::joypad::Key;

#[test]
fn test_joypad() {
    let joypad = Joypad::new();
    assert_eq!(joypad.flags, 0xff);
}

#[test]
fn test_direction_keys_report_when_selected() {
    let mut joypad = Joypad::new();
    let mut ints = InterruptController::new();
    // Select the direction group: bit 4 low.
    joypad.flags = 0xef;
    joypad.handle_input(&mut ints, Key::Up, true);
    // Up is bit 2, active low.
    assert_eq!(joypad.flags, 0xeb);
    joypad.handle_input(&mut ints, Key::Up, false);
    assert_eq!(joypad.flags, 0xef);
    // Button keys do not show while only directions are selected.
    joypad.handle_input(&mut ints, Key::A, true);
    assert_eq!(joypad.flags, 0xef);
}

#[test]
fn test_button_keys_report_when_selected() {
    let mut joypad = Joypad::new();
    let mut ints = InterruptController::new();
    // Select the button group: bit 5 low.
    joypad.flags = 0xdf;
    joypad.handle_input(&mut ints, Key::A, true);
    assert_eq!(joypad.flags, 0xde);
    joypad.handle_input(&mut ints, Key::B, true);
    assert_eq!(joypad.flags, 0xdc);
    joypad.handle_input(&mut ints, Key::Select, true);
    assert_eq!(joypad.flags, 0xd8);
    joypad.handle_input(&mut ints, Key::Start, true);
    assert_eq!(joypad.flags, 0xd0);
}

#[test]
fn test_both_groups_selected() {
    let mut joypad = Joypad::new();
    let mut ints = InterruptController::new();
    // Both select bits low: a direction and a button share the nibble.
    joypad.flags = 0xcf;
    joypad.handle_input(&mut ints, Key::Right, true);
    joypad.handle_input(&mut ints, Key::A, true);
    // Both keys clear the same bit; it reads as one pressed bit.
    assert_eq!(joypad.flags, 0xce);
}

#[test]
fn test_input_raises_interrupt_with_master_enable() {
    let mut joypad = Joypad::new();
    let mut ints = InterruptController::new();
    ints.master_enable = true;
    joypad.handle_input(&mut ints, Key::Start, true);
    assert_eq!(ints.flag, 0x10);

    let mut quiet = InterruptController::new();
    let mut joypad2 = Joypad::new();
    joypad2.handle_input(&mut quiet, Key::Start, true);
    assert_eq!(quiet.flag, 0);
}

#[test]
fn test_set_flags_restores_released_keys() {
    let mut joypad = Joypad::new();
    joypad.flags = 0xe0;
    joypad.set_flags();
    // The low nibble refills with released bits before pressed keys clear
    // theirs; no key is down, so all four read high.
    assert_eq!(joypad.flags, 0xef);
}

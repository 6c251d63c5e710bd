use gbcore::interrupt::InterruptController;
use gbcore::timer::Timer;

#[test]
fn test_timer() {
    let timer = Timer::new();
    assert_eq!(timer.div, 0);
}

#[test]
fn test_div_always_counts() {
    let mut timer = Timer::new();
    let mut ints = InterruptController::new();
    // TAC leaves TIMA disabled, but DIV still ticks every 256 cycles.
    timer.run(&mut ints, 255);
    assert_eq!(timer.div, 0);
    timer.run(&mut ints, 1);
    assert_eq!(timer.div, 1);
    assert_eq!(timer.tima, 0);
}

#[test]
fn test_tima_disabled_without_enable_bit() {
    let mut timer = Timer::new();
    let mut ints = InterruptController::new();
    timer.tac = 0x01;
    timer.run(&mut ints, 4096);
    assert_eq!(timer.tima, 0);
}

#[test]
fn test_tima_rates() {
    let mut ints = InterruptController::new();
    // Clock select 0: one tick per 1024 cycles.
    let mut timer = Timer::new();
    timer.tac = 0x04;
    timer.run(&mut ints, 1023);
    assert_eq!(timer.tima, 0);
    timer.run(&mut ints, 1);
    assert_eq!(timer.tima, 1);
    // Clock select 1: one tick per 16 cycles.
    let mut timer = Timer::new();
    timer.tac = 0x05;
    timer.run(&mut ints, 16);
    assert_eq!(timer.tima, 1);
    // Clock select 2: one tick per 64 cycles.
    let mut timer = Timer::new();
    timer.tac = 0x06;
    timer.run(&mut ints, 64);
    assert_eq!(timer.tima, 1);
    // Clock select 3: one tick per 256 cycles.
    let mut timer = Timer::new();
    timer.tac = 0x07;
    timer.run(&mut ints, 255);
    assert_eq!(timer.tima, 0);
    timer.run(&mut ints, 1);
    assert_eq!(timer.tima, 1);
}

#[test]
fn test_tima_overflow_reloads_and_interrupts() {
    let mut timer = Timer::new();
    let mut ints = InterruptController::new();
    ints.master_enable = true;
    timer.tac = 0x05;
    timer.tima = 0xff;
    timer.tma = 0x42;
    timer.run(&mut ints, 16);
    assert_eq!(timer.tima, 0x42);
    assert_eq!(ints.flag, 0x04);
}

#[test]
fn test_tima_overflow_gated_on_master_enable() {
    let mut timer = Timer::new();
    let mut ints = InterruptController::new();
    ints.master_enable = false;
    timer.tac = 0x05;
    timer.tima = 0xff;
    timer.tma = 0x42;
    timer.run(&mut ints, 16);
    // The reload still happens, but no request is raised.
    assert_eq!(timer.tima, 0x42);
    assert_eq!(ints.flag, 0);
}

#[test]
fn test_accumulator_carries_remainder() {
    let mut timer = Timer::new();
    let mut ints = InterruptController::new();
    timer.tac = 0x05;
    timer.run(&mut ints, 20);
    assert_eq!(timer.tima, 1);
    assert_eq!(timer.last_tick, 4);
    timer.run(&mut ints, 12);
    assert_eq!(timer.tima, 2);
    assert_eq!(timer.last_tick, 0);
}

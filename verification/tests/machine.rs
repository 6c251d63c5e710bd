use gbcore::cpu::Cpu;
use gbcore::mem::MemoryMap;

fn machine_with_rom(program: &[(u16, u8)]) -> MemoryMap {
    let mut rom = vec![0u8; 0x8000];
    for &(addr, byte) in program {
        rom[addr as usize] = byte;
    }
    MemoryMap::new(rom)
}

#[test]
fn test_nop_scenario() {
    // A ROM of zero bytes is a run of NOPs: four steps advance PC by four
    // and cost four cycles each.
    let mut mm = machine_with_rom(&[]);
    let mut cpu = Cpu::new();
    assert_eq!(cpu.pc, 0x100);
    for _ in 0..4 {
        cpu.run(&mut mm);
    }
    assert_eq!(cpu.pc, 0x104);
    assert_eq!(cpu.cycles, 16);
}

#[test]
fn test_stack_round_trip() {
    // PUSH BC then POP DE moves the value through the stack and restores
    // SP to its origin.
    let mut mm = machine_with_rom(&[(0x100, 0xc5), (0x101, 0xd1)]);
    let mut cpu = Cpu::new();
    cpu.set_bc(0x1234);
    let sp0 = cpu.sp;
    cpu.run(&mut mm);
    assert_eq!(cpu.sp, sp0.wrapping_sub(2));
    cpu.run(&mut mm);
    assert_eq!(cpu.de(), 0x1234);
    assert_eq!(cpu.sp, sp0);
}

#[test]
fn test_inc16_flag_immunity() {
    // INC BC changes the pair but leaves all four flags exactly as set.
    let mut mm = machine_with_rom(&[(0x100, 0x03)]);
    let mut cpu = Cpu::new();
    cpu.set_f(0xf0);
    cpu.set_bc(0x00ff);
    cpu.run(&mut mm);
    assert_eq!(cpu.bc(), 0x0100);
    assert_eq!(cpu.f(), 0xf0);
}

#[test]
fn test_dec16_flag_immunity() {
    let mut mm = machine_with_rom(&[(0x100, 0x0b)]);
    let mut cpu = Cpu::new();
    cpu.set_f(0xf0);
    cpu.set_bc(0x0100);
    cpu.run(&mut mm);
    assert_eq!(cpu.bc(), 0x00ff);
    assert_eq!(cpu.f(), 0xf0);
}

#[test]
fn test_interrupt_priority() {
    // With VBlank and Timer both requested and everything enabled, one
    // step services VBlank alone: its request bit clears, Timer's stays.
    let mut mm = machine_with_rom(&[]);
    let mut cpu = Cpu::new();
    mm.ints.enable = 0xff;
    mm.ints.flag = 0b101;
    mm.ints.master_enable = true;
    cpu.run(&mut mm);
    assert_eq!(cpu.pc, 0x40);
    assert_eq!(mm.ints.flag, 0b100);
    assert!(!mm.ints.master_enable);
    // The NOP cost four cycles and the service added twenty.
    assert_eq!(cpu.cycles, 24);
    // The interrupted PC went to the stack.
    assert_eq!(cpu.sp, 0xfffc);
    assert_eq!(mm.read(0xfffc), 0x01);
    assert_eq!(mm.read(0xfffd), 0x01);
}

#[test]
fn test_interrupt_requires_master_enable() {
    let mut mm = machine_with_rom(&[]);
    let mut cpu = Cpu::new();
    mm.ints.enable = 0xff;
    mm.ints.flag = 0b101;
    mm.ints.master_enable = false;
    cpu.run(&mut mm);
    assert_eq!(cpu.pc, 0x101);
    assert_eq!(mm.ints.flag, 0b101);
}

#[test]
fn test_halt_wakes_on_interrupt() {
    let mut mm = machine_with_rom(&[(0x100, 0x76)]);
    let mut cpu = Cpu::new();
    cpu.run(&mut mm);
    assert!(cpu.halt);
    assert_eq!(cpu.cycles, 0);
    // While halted each step costs the fixed quantum.
    cpu.run(&mut mm);
    assert_eq!(cpu.cycles, 16);
    assert!(cpu.halt);
    // A serviceable interrupt ends the halt.
    mm.ints.enable = 0x04;
    mm.ints.flag = 0x04;
    mm.ints.master_enable = true;
    cpu.run(&mut mm);
    assert!(!cpu.halt);
    assert_eq!(cpu.pc, 0x50);
    assert_eq!(cpu.cycles, 16 + 16 + 20);
}

#[test]
fn test_ei_takes_effect_immediately() {
    // EI sets IME at once, so the same step's service check already fires.
    let mut mm = machine_with_rom(&[(0x100, 0xfb)]);
    let mut cpu = Cpu::new();
    mm.ints.enable = 0x01;
    mm.ints.flag = 0x01;
    cpu.run(&mut mm);
    assert_eq!(cpu.pc, 0x40);
    assert_eq!(cpu.cycles, 24);
    assert_eq!(mm.ints.flag, 0);
}

#[test]
fn test_di_takes_effect_immediately() {
    // DI clears IME at once, so a pending request is not serviced.
    let mut mm = machine_with_rom(&[(0x100, 0xf3)]);
    let mut cpu = Cpu::new();
    mm.ints.enable = 0x01;
    mm.ints.flag = 0x01;
    mm.ints.master_enable = true;
    cpu.run(&mut mm);
    assert_eq!(cpu.pc, 0x101);
    assert_eq!(mm.ints.flag, 0x01);
    assert!(!mm.ints.master_enable);
}

#[test]
fn test_bank_alias() {
    // Bank-select values 0x00/0x20/0x40/0x60 pick the following bank, so
    // writing 0x20 selects bank 0x21, never 0x20.
    let mut mm = MemoryMap::new(vec![0u8; 0x8000]);
    mm.write(0x2000, 0x20);
    assert_eq!(mm.rom_bank, 0x21);
    mm.write(0x2000, 0x00);
    assert_eq!(mm.rom_bank, 0x01);
    mm.write(0x2000, 0x40);
    assert_eq!(mm.rom_bank, 0x41);
    mm.write(0x2000, 0x60);
    assert_eq!(mm.rom_bank, 0x61);
    mm.write(0x2000, 0x05);
    assert_eq!(mm.rom_bank, 0x05);
    mm.write(0x3fff, 0x21);
    assert_eq!(mm.rom_bank, 0x21);
}

#[test]
fn test_banked_rom_read() {
    let mut rom = vec![0u8; 0x22 * 0x4000];
    rom[0x21 * 0x4000] = 0xab;
    rom[0x21 * 0x4000 + 5] = 0xcd;
    let mut mm = MemoryMap::new(rom);
    mm.write(0x2000, 0x20);
    assert_eq!(mm.read(0x4000), 0xab);
    assert_eq!(mm.read(0x4005), 0xcd);
}

#[test]
fn test_rom_reads_and_writes() {
    let mut rom = vec![0u8; 0x8000];
    rom[0x42] = 0x99;
    let mut mm = MemoryMap::new(rom);
    assert_eq!(mm.read(0x42), 0x99);
    // ROM rejects writes without error.
    mm.write(0x42, 0x11);
    assert_eq!(mm.read(0x42), 0x99);
    mm.write(0x5000, 0x11);
    assert_eq!(mm.read(0x5000), 0x00);
    // Reads beyond the image are 0, not a fault.
    let mut short = MemoryMap::new(vec![0x77u8; 4]);
    assert_eq!(short.read(0x0003), 0x77);
    assert_eq!(short.read(0x0004), 0x00);
    assert_eq!(short.read(0x7fff), 0x00);
    short.rom_bank = 0xff;
    assert_eq!(short.read(0x4000), 0x00);
}

#[test]
fn test_ram_regions() {
    let mut mm = MemoryMap::new(vec![0u8; 0x8000]);
    mm.write(0x8000, 0x11);
    assert_eq!(mm.read(0x8000), 0x11);
    mm.write(0x9fff, 0x22);
    assert_eq!(mm.read(0x9fff), 0x22);
    mm.write(0xa000, 0x33);
    assert_eq!(mm.read(0xa000), 0x33);
    mm.write(0xff80, 0x44);
    assert_eq!(mm.read(0xff80), 0x44);
    mm.write(0xfe00, 0x55);
    assert_eq!(mm.read(0xfe00), 0x55);
}

#[test]
fn test_echo_ram_mirrors_work_ram() {
    let mut mm = MemoryMap::new(vec![0u8; 0x8000]);
    mm.write(0xc123, 0x77);
    assert_eq!(mm.read(0xe123), 0x77);
    mm.write(0xe200, 0x55);
    assert_eq!(mm.read(0xc200), 0x55);
}

#[test]
fn test_unusable_range() {
    let mut mm = MemoryMap::new(vec![0u8; 0x8000]);
    mm.write(0xfea5, 0x12);
    assert_eq!(mm.read(0xfea5), 0x00);
}

#[test]
fn test_eram_enable_latch() {
    let mut mm = MemoryMap::new(vec![0u8; 0x8000]);
    assert!(!mm.eram_enabled);
    mm.write(0x0000, 0x0a);
    assert!(mm.eram_enabled);
    mm.write(0x1fff, 0xfa);
    assert!(mm.eram_enabled);
    mm.write(0x0000, 0x00);
    assert!(!mm.eram_enabled);
}

#[test]
fn test_dma_copies_into_oam() {
    let mut mm = MemoryMap::new(vec![0u8; 0x8000]);
    for i in 0..0xa0u16 {
        mm.write(0xc000 + i, (i as u8).wrapping_add(3));
    }
    mm.write(0xff46, 0xc0);
    for i in 0..0xa0u16 {
        assert_eq!(mm.read(0xfe00 + i), (i as u8).wrapping_add(3));
    }
}

#[test]
fn test_interrupt_registers() {
    let mut mm = MemoryMap::new(vec![0u8; 0x8000]);
    mm.write(0xffff, 0x15);
    assert_eq!(mm.read(0xffff), 0x15);
    mm.write(0xff0f, 0x03);
    assert_eq!(mm.read(0xff0f), 0x03);
    mm.ints.master_enable = true;
    // The service check clears IME and the request bit together.
    assert!(mm.interrupt_triggered(0x01));
    assert!(!mm.ints.master_enable);
    assert_eq!(mm.ints.flag, 0x02);
    assert!(!mm.interrupt_triggered(0x02));
}

#[test]
fn test_di_ei() {
    let mut mm = MemoryMap::new(vec![0u8; 0x8000]);
    mm.ei();
    assert!(mm.ints.master_enable);
    mm.di();
    assert!(!mm.ints.master_enable);
}

#[test]
fn test_io_registers_route_to_peripherals() {
    let mut mm = MemoryMap::new(vec![0u8; 0x8000]);
    mm.write(0xff40, 0x91);
    assert_eq!(mm.lcd.ctl, 0x91);
    assert_eq!(mm.read(0xff40), 0x91);
    mm.write(0xff42, 0x13);
    assert_eq!(mm.lcd.scy, 0x13);
    mm.write(0xff45, 0x07);
    assert_eq!(mm.lcd.lyc, 0x07);
    mm.write(0xff06, 0x99);
    assert_eq!(mm.timer.tma, 0x99);
    mm.write(0xff07, 0x05);
    assert_eq!(mm.timer.tac, 0x05);
    mm.write(0xff24, 0x66);
    assert_eq!(mm.sound.nr50, 0x66);
    assert_eq!(mm.read(0xff24), 0x66);
    // Serial and unmapped ports read zero.
    assert_eq!(mm.read(0xff01), 0x00);
    assert_eq!(mm.read(0xff7f), 0x00);
}

#[test]
fn test_joypad_register_via_memory() {
    let mut mm = MemoryMap::new(vec![0u8; 0x8000]);
    mm.joypad.up = true;
    // Selecting the direction group (bit 4 low) reports Up as a low bit 2.
    mm.write(0xff00, 0xef);
    assert_eq!(mm.read(0xff00), 0xeb);
    // Deselecting both groups reports all keys released.
    mm.write(0xff00, 0xff);
    assert_eq!(mm.read(0xff00), 0xff);
}

#[test]
fn test_jumps_and_calls() {
    // JP 0x1234; at 0x1234 CALL 0x2000; at 0x2000 RET.
    let mut mm = machine_with_rom(&[
        (0x100, 0xc3),
        (0x101, 0x34),
        (0x102, 0x12),
        (0x1234, 0xcd),
        (0x1235, 0x00),
        (0x1236, 0x20),
        (0x2000, 0xc9),
    ]);
    let mut cpu = Cpu::new();
    cpu.run(&mut mm);
    assert_eq!(cpu.pc, 0x1234);
    cpu.run(&mut mm);
    assert_eq!(cpu.pc, 0x2000);
    assert_eq!(cpu.sp, 0xfffc);
    cpu.run(&mut mm);
    // RET returns to the byte after the CALL.
    assert_eq!(cpu.pc, 0x1237);
    assert_eq!(cpu.sp, 0xfffe);
}

#[test]
fn test_loads_through_hl() {
    // LD (HL),A; LD B,(HL); LD C,B.
    let mut mm = machine_with_rom(&[(0x100, 0x77), (0x101, 0x46), (0x102, 0x48)]);
    let mut cpu = Cpu::new();
    cpu.a = 0x5e;
    cpu.set_hl(0xc040);
    cpu.run(&mut mm);
    assert_eq!(mm.read(0xc040), 0x5e);
    cpu.run(&mut mm);
    assert_eq!(cpu.b, 0x5e);
    cpu.run(&mut mm);
    assert_eq!(cpu.c, 0x5e);
    assert_eq!(cpu.pc, 0x103);
    assert_eq!(cpu.cycles, 8 + 8 + 4);
}

#[test]
fn test_alu_through_memory_operand() {
    // ADD A,(HL) then XOR A,A.
    let mut mm = machine_with_rom(&[(0x100, 0x86), (0x101, 0xaf)]);
    let mut cpu = Cpu::new();
    cpu.a = 0x3a;
    cpu.set_hl(0xc000);
    mm.write(0xc000, 0xc6);
    cpu.run(&mut mm);
    assert_eq!(cpu.a, 0x00);
    assert!(cpu.zero() && cpu.half_carry() && cpu.carry());
    cpu.a = 0x55;
    cpu.run(&mut mm);
    assert_eq!(cpu.a, 0x00);
    assert!(cpu.zero());
    assert!(!cpu.carry());
}

#[test]
fn test_relative_jump_backwards() {
    // JR -2 loops back onto itself.
    let mut mm = machine_with_rom(&[(0x100, 0x18), (0x101, 0xfe)]);
    let mut cpu = Cpu::new();
    cpu.run(&mut mm);
    assert_eq!(cpu.pc, 0x100);
}

#[test]
fn test_conditional_jump_cycles() {
    // JR NZ taken costs 12 cycles, not taken 8.
    let mut mm = machine_with_rom(&[(0x100, 0x20), (0x101, 0x02), (0x104, 0x20), (0x105, 0x02)]);
    let mut cpu = Cpu::new();
    cpu.set_zero(false);
    cpu.run(&mut mm);
    assert_eq!(cpu.pc, 0x104);
    assert_eq!(cpu.cycles, 12);
    cpu.set_zero(true);
    cpu.run(&mut mm);
    assert_eq!(cpu.pc, 0x106);
    assert_eq!(cpu.cycles, 20);
}

#[test]
fn test_rst_vector() {
    let mut mm = machine_with_rom(&[(0x100, 0xef)]);
    let mut cpu = Cpu::new();
    cpu.run(&mut mm);
    assert_eq!(cpu.pc, 0x28);
    assert_eq!(cpu.sp, 0xfffc);
    // RST pushes the address after the one-byte instruction.
    assert_eq!(mm.read(0xfffc), 0x01);
    assert_eq!(mm.read(0xfffd), 0x01);
}

#[test]
fn test_cb_prefixed_ops() {
    // CB 0x37 is SWAP A; CB 0x86 is RES 0,(HL); CB 0xc6 is SET 0,(HL).
    let mut mm = machine_with_rom(&[(0x100, 0xcb), (0x101, 0x37), (0x102, 0xcb), (0x103, 0x86),
        (0x104, 0xcb), (0x105, 0xc6)]);
    let mut cpu = Cpu::new();
    cpu.a = 0x5f;
    cpu.run(&mut mm);
    assert_eq!(cpu.a, 0xf5);
    assert_eq!(cpu.cycles, 8);
    cpu.set_hl(0xc000);
    mm.write(0xc000, 0xff);
    cpu.run(&mut mm);
    assert_eq!(mm.read(0xc000), 0xfe);
    assert_eq!(cpu.cycles, 8 + 16);
    cpu.run(&mut mm);
    assert_eq!(mm.read(0xc000), 0xff);
    assert_eq!(cpu.pc, 0x106);
}

#[test]
fn test_add_sp_displacement() {
    // ADD SP,e treats the displacement as signed but computes flags from
    // the low byte as unsigned.
    let mut mm = machine_with_rom(&[(0x100, 0xe8), (0x101, 0xfe)]);
    let mut cpu = Cpu::new();
    cpu.sp = 0x0001;
    cpu.run(&mut mm);
    assert_eq!(cpu.sp, 0xffff);
    assert!(!cpu.zero());
    assert!(!cpu.subtract());
    // 0x01 + 0xfe carries out of neither bit 3 nor bit 7.
    assert!(!cpu.half_carry());
    assert!(!cpu.carry());
}

#[test]
fn test_ld_hl_sp_displacement() {
    let mut mm = machine_with_rom(&[(0x100, 0xf8), (0x101, 0x08)]);
    let mut cpu = Cpu::new();
    cpu.sp = 0x00f8;
    cpu.run(&mut mm);
    assert_eq!(cpu.hl(), 0x0100);
    assert!(cpu.half_carry());
    assert!(cpu.carry());
    assert_eq!(cpu.sp, 0x00f8);
}

#[test]
fn test_pop_af_masks_low_flag_bits() {
    // Values popped into AF lose the low nibble of F: the flag invariant
    // holds for every reachable F value.
    let mut mm = machine_with_rom(&[(0x100, 0xf1)]);
    let mut cpu = Cpu::new();
    cpu.sp = 0xc000;
    mm.write(0xc000, 0xff);
    mm.write(0xc001, 0x12);
    cpu.run(&mut mm);
    assert_eq!(cpu.a, 0x12);
    assert_eq!(cpu.f(), 0xf0);
    assert_eq!(cpu.f() % 16, 0);
}

#[test]
fn test_reti_restores_master_enable() {
    let mut mm = machine_with_rom(&[(0x100, 0xd9)]);
    let mut cpu = Cpu::new();
    cpu.sp = 0xc000;
    mm.write(0xc000, 0x34);
    mm.write(0xc001, 0x12);
    cpu.run(&mut mm);
    assert_eq!(cpu.pc, 0x1234);
    assert!(mm.ints.master_enable);
}

use gbcore::cpu::Cpu;
use gbcore::cpu::opcode_defined;
use gbcore::mem::MemoryMap;

#[test]
fn test_cpu() {
    let mut cpu = Cpu::new();

    cpu.set_af(0x2343);
    assert_eq!(cpu.a, 0x23);
    // The low nibble of F is discarded: 0x43 stores as 0x40.
    assert_eq!(cpu.f(), 0x40);
    assert_eq!(cpu.af(), 0x2340);
    cpu.set_bc(0x5432);
    assert_eq!(cpu.b, 0x54);
    assert_eq!(cpu.c, 0x32);
    assert_eq!(cpu.bc(), 0x5432);
    cpu.set_de(0x9988);
    assert_eq!(cpu.d, 0x99);
    assert_eq!(cpu.e, 0x88);
    assert_eq!(cpu.de(), 0x9988);
    cpu.set_hl(0x8743);
    assert_eq!(cpu.h, 0x87);
    assert_eq!(cpu.l, 0x43);
    assert_eq!(cpu.hl(), 0x8743);

    cpu.set_f(0);
    cpu.set_zero(true);
    assert_eq!(cpu.f(), 0x80);
    cpu.set_zero(false);
    assert_eq!(cpu.f(), 0);

    let rom = vec![0x00, 0x01, 0x23, 0x45];
    let mut mm = MemoryMap::new(rom);
    assert_eq!(cpu.read_u16(&mm, 0), 0x0100);
    assert_eq!(cpu.read_u16(&mm, 2), 0x4523);

    cpu.stack_write_u16(&mut mm, 0x1234);
    assert_eq!(cpu.sp, 0xfffc);
    assert_eq!(mm.read(cpu.sp), 0x34);
    assert_eq!(mm.read(cpu.sp + 1), 0x12);
    assert_eq!(cpu.stack_read_u16(&mm), 0x1234);

    assert_eq!(cpu.rlc(23), 2 * 23);
    assert_eq!(cpu.rlc(46), 2 * 46);
    assert_eq!(cpu.rlc(92), 2 * 92);
    assert_eq!(cpu.rlc(150), 45);

    assert_eq!(cpu.rrc(150), 75);
    assert_eq!(cpu.rrc(75), 165);

    {
        let a: u8 = 23;
        let b: u8 = 42;

        let c = a.wrapping_add(b);
        println!("a = {}", a);
        println!("b = {}", b);
        println!("c = {}", c);
    }
}

#[test]
fn test_add_flag_vector() {
    // 0x3a + 0xc6 wraps to zero with carries out of bits 3 and 7.
    let mut cpu = Cpu::new();
    cpu.a = 0x3a;
    cpu.add(0xc6);
    assert_eq!(cpu.a, 0x00);
    assert!(cpu.zero());
    assert!(!cpu.subtract());
    assert!(cpu.half_carry());
    assert!(cpu.carry());
}

#[test]
fn test_adc_folds_carry_once() {
    let mut cpu = Cpu::new();
    cpu.a = 0x0f;
    cpu.set_carry(true);
    cpu.adc(0x00);
    assert_eq!(cpu.a, 0x10);
    assert!(cpu.half_carry());
    assert!(!cpu.carry());
    assert!(!cpu.zero());

    cpu.a = 0xff;
    cpu.set_carry(true);
    cpu.adc(0x00);
    assert_eq!(cpu.a, 0x00);
    assert!(cpu.zero());
    assert!(cpu.carry());
}

#[test]
fn test_sub_and_cp_flags() {
    let mut cpu = Cpu::new();
    cpu.a = 0x05;
    cpu.sub(0x07);
    assert_eq!(cpu.a, 0xfe);
    assert!(cpu.subtract());
    assert!(cpu.half_carry());
    assert!(cpu.carry());
    assert!(!cpu.zero());

    cpu.a = 0x42;
    cpu.cp(0x42);
    assert_eq!(cpu.a, 0x42);
    assert!(cpu.zero());
    assert!(cpu.subtract());
    assert!(!cpu.carry());
}

#[test]
fn test_sbc_borrows() {
    let mut cpu = Cpu::new();
    cpu.a = 0x10;
    cpu.set_carry(true);
    cpu.sbc(0x0f);
    assert_eq!(cpu.a, 0x00);
    assert!(cpu.zero());
    assert!(cpu.subtract());
    assert!(cpu.half_carry());
    assert!(!cpu.carry());
}

#[test]
fn test_logic_ops() {
    let mut cpu = Cpu::new();
    cpu.a = 0xf0;
    cpu.and(0x3c);
    assert_eq!(cpu.a, 0x30);
    assert!(cpu.half_carry());
    assert!(!cpu.carry());

    cpu.a = 0xf0;
    cpu.xor(0xff);
    assert_eq!(cpu.a, 0x0f);
    assert!(!cpu.half_carry());

    cpu.a = 0x0f;
    cpu.or(0xf0);
    assert_eq!(cpu.a, 0xff);
    assert!(!cpu.zero());

    cpu.a = 0xaa;
    cpu.xor(0xaa);
    assert_eq!(cpu.a, 0x00);
    assert!(cpu.zero());
}

#[test]
fn test_inc_dec_flags() {
    let mut cpu = Cpu::new();
    cpu.set_carry(true);
    let r = cpu.inc(0x0f);
    assert_eq!(r, 0x10);
    assert!(cpu.half_carry());
    // INC and DEC leave Carry alone.
    assert!(cpu.carry());

    let r = cpu.dec(0x10);
    assert_eq!(r, 0x0f);
    assert!(cpu.half_carry());
    assert!(cpu.subtract());
    assert!(cpu.carry());

    let r = cpu.inc(0xff);
    assert_eq!(r, 0x00);
    assert!(cpu.zero());

    let r = cpu.dec(0x01);
    assert_eq!(r, 0x00);
    assert!(cpu.zero());
}

#[test]
fn test_shift_ops() {
    let mut cpu = Cpu::new();
    cpu.set_carry(false);
    let r = cpu.rl(0x80);
    assert_eq!(r, 0x00);
    assert!(cpu.zero());
    assert!(cpu.carry());

    let r = cpu.rl(0x01);
    // The old Carry rotates into bit 0.
    assert_eq!(r, 0x03);
    assert!(!cpu.carry());

    cpu.set_carry(true);
    let r = cpu.rr(0x02);
    assert_eq!(r, 0x81);
    assert!(!cpu.carry());

    let r = cpu.sla(0xc0);
    assert_eq!(r, 0x80);
    assert!(cpu.carry());

    let r = cpu.sra(0x81);
    assert_eq!(r, 0xc0);
    assert!(cpu.carry());

    let r = cpu.srl(0x81);
    assert_eq!(r, 0x40);
    assert!(cpu.carry());

    let r = cpu.swap(0xab);
    assert_eq!(r, 0xba);
    assert!(!cpu.carry());
}

#[test]
fn test_daa_after_sub() {
    // SUB leaves an invalid BCD nibble with Subtract set; DAA corrects
    // the accumulator back into the packed-BCD range.
    let mut cpu = Cpu::new();
    cpu.a = 0x05;
    cpu.sub(0x07);
    assert_eq!(cpu.a, 0xfe);
    cpu.daa();
    assert_eq!(cpu.a, 0x98);
    assert!(cpu.a <= 0x99);
    assert!(!cpu.half_carry());
    assert!(cpu.carry());
    assert!(!cpu.zero());
    assert!(cpu.subtract());
}

#[test]
fn test_daa_after_add() {
    let mut cpu = Cpu::new();
    cpu.a = 0x45;
    cpu.add(0x38);
    assert_eq!(cpu.a, 0x7d);
    cpu.daa();
    assert_eq!(cpu.a, 0x83);
    assert!(!cpu.carry());
}

#[test]
fn test_daa_bcd_subtraction() {
    // Decimal 41 - 28 = 13, and 20 - 50 wraps to 70 modulo 100.
    let mut cpu = Cpu::new();
    cpu.a = 0x41;
    cpu.sub(0x28);
    cpu.daa();
    assert_eq!(cpu.a, 0x13);
    assert!(!cpu.carry());

    cpu.a = 0x20;
    cpu.sub(0x50);
    cpu.daa();
    assert_eq!(cpu.a, 0x70);
    assert!(cpu.carry());
}

#[test]
fn test_add_hl_flags() {
    let mut cpu = Cpu::new();
    cpu.set_hl(0x0fff);
    cpu.set_zero(true);
    cpu.add_hl(0x0001);
    assert_eq!(cpu.hl(), 0x1000);
    assert!(cpu.half_carry());
    assert!(!cpu.carry());
    // ADD HL leaves Zero untouched.
    assert!(cpu.zero());

    cpu.set_hl(0xffff);
    cpu.add_hl(0x0001);
    assert_eq!(cpu.hl(), 0x0000);
    assert!(cpu.carry());
}

#[test]
fn test_bit_res_set() {
    let mut cpu = Cpu::new();
    cpu.bit(3, 0x08);
    assert!(!cpu.zero());
    assert!(cpu.half_carry());
    cpu.bit(3, 0xf7);
    assert!(cpu.zero());

    assert_eq!(cpu.res(0, 0xff), 0xfe);
    assert_eq!(cpu.res(7, 0x80), 0x00);
    assert_eq!(cpu.res(4, 0x0f), 0x0f);
    assert_eq!(cpu.set(0, 0x00), 0x01);
    assert_eq!(cpu.set(7, 0x00), 0x80);
    assert_eq!(cpu.set(4, 0x10), 0x10);
}

#[test]
fn test_opcode_defined() {
    assert!(opcode_defined(0x00));
    assert!(opcode_defined(0xcb));
    assert!(opcode_defined(0xff));
    for op in [0xd3u8, 0xdb, 0xdd, 0xe3, 0xe4, 0xeb, 0xec, 0xed, 0xf4, 0xfc, 0xfd] {
        assert!(!opcode_defined(op));
    }
}

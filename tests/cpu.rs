use rustygb::cpu::CPU;
use rustygb::mmu::MemoryBus;
use rustygb::system::Peripheral;

fn load(bus: &mut MemoryBus<Peripheral>, at: u16, program: &[u8]) {
    for (i, b) in program.iter().enumerate() {
        bus.write_byte(at + i as u16, *b);
    }
}

fn setup(program: &[u8]) -> (CPU, MemoryBus<Peripheral>) {
    let mut bus = MemoryBus::new();
    load(&mut bus, 0x0100, program);
    (CPU::new(), bus)
}

#[test]
fn nop_advances_pc_only() {
    let (mut cpu, mut bus) = setup(&[0x00]);
    let before = cpu.reg;
    let cycles = cpu.step(&mut bus);
    assert_eq!(cycles, 4);
    assert_eq!(cpu.reg.pc, 0x0101);
    assert_eq!(cpu.reg.af(), before.af());
    assert_eq!(cpu.reg.bc(), before.bc());
    assert_eq!(cpu.reg.de(), before.de());
    assert_eq!(cpu.reg.hl(), before.hl());
    assert_eq!(cpu.reg.sp, before.sp);
    assert!(cpu.ime);
    assert!(!cpu.halt);
}

#[test]
fn load_then_xor_clears_a() {
    let (mut cpu, mut bus) = setup(&[0x3E, 0x42, 0xAF]);
    cpu.step(&mut bus);
    assert_eq!(cpu.reg.a, 0x42);
    cpu.step(&mut bus);
    assert_eq!(cpu.reg.a, 0);
    assert_eq!(cpu.reg.f, 0x80);
    assert_eq!(cpu.reg.pc, 0x0103);
}

#[test]
fn load16_then_increment() {
    let (mut cpu, mut bus) = setup(&[0x01, 0x34, 0x12, 0x03]);
    let f = cpu.reg.f;
    cpu.step(&mut bus);
    cpu.step(&mut bus);
    assert_eq!(cpu.reg.bc(), 0x1235);
    assert_eq!(cpu.reg.f, f);
}

#[test]
fn add_sets_half_carry() {
    let (mut cpu, mut bus) = setup(&[0xC6, 0x01]);
    cpu.reg.a = 0x0F;
    cpu.step(&mut bus);
    assert_eq!(cpu.reg.a, 0x10);
    assert!(!cpu.reg.zero());
    assert!(!cpu.reg.subtract());
    assert!(cpu.reg.half_carry());
    assert!(!cpu.reg.carry());
}

#[test]
fn daa_after_bcd_add() {
    let (mut cpu, mut bus) = setup(&[0xC6, 0x38, 0x27]);
    cpu.reg.a = 0x45;
    cpu.step(&mut bus);
    cpu.step(&mut bus);
    assert_eq!(cpu.reg.a, 0x83);
    assert!(!cpu.reg.zero());
    assert!(!cpu.reg.subtract());
    assert!(!cpu.reg.half_carry());
    assert!(!cpu.reg.carry());
}

#[test]
fn call_then_ret() {
    let (mut cpu, mut bus) = setup(&[0xCD, 0x05, 0x01, 0x00, 0x00, 0xC9]);
    assert_eq!(cpu.reg.sp, 0xFFFE);
    let cycles = cpu.step(&mut bus);
    assert_eq!(cycles, 24);
    assert_eq!(cpu.reg.pc, 0x0105);
    assert_eq!(bus.read_byte(0xFFFC), 0x03);
    assert_eq!(bus.read_byte(0xFFFD), 0x01);
    assert_eq!(cpu.reg.sp, 0xFFFC);
    cpu.step(&mut bus);
    assert_eq!(cpu.reg.pc, 0x0103);
    assert_eq!(cpu.reg.sp, 0xFFFE);
}

#[test]
fn interrupt_dispatch() {
    let (mut cpu, mut bus) = setup(&[]);
    cpu.ime = true;
    bus.write_byte(0xFFFF, 0x01);
    bus.set_if(0x01);
    cpu.reg.pc = 0x1234;
    cpu.reg.sp = 0xFFFE;
    let cycles = cpu.step(&mut bus);
    assert_eq!(cycles, 20);
    assert_eq!(cpu.reg.pc, 0x40);
    assert_eq!(cpu.reg.sp, 0xFFFC);
    assert_eq!(bus.read_byte(0xFFFC), 0x34);
    assert_eq!(bus.read_byte(0xFFFD), 0x12);
    assert_eq!(bus.get_if() & 0x01, 0);
    assert!(!cpu.ime);
}

#[test]
fn interrupt_takes_lowest_pending_vector() {
    let (mut cpu, mut bus) = setup(&[]);
    cpu.ime = true;
    bus.write_byte(0xFFFF, 0x1F);
    bus.set_if(0x0C);
    cpu.step(&mut bus);
    assert_eq!(cpu.reg.pc, 0x50);
    assert_eq!(bus.get_if(), 0x08);
}

#[test]
fn halt_idles_until_request() {
    let (mut cpu, mut bus) = setup(&[0x76, 0x00]);
    cpu.ime = false;
    cpu.step(&mut bus);
    assert!(cpu.halt);
    assert_eq!(cpu.step(&mut bus), 4);
    assert_eq!(cpu.reg.pc, 0x0101);
    bus.write_byte(0xFFFF, 0x04);
    bus.set_if(0x04);
    assert_eq!(cpu.step(&mut bus), 4);
    assert!(!cpu.halt);
    cpu.step(&mut bus);
    assert_eq!(cpu.reg.pc, 0x0102);
}

#[test]
fn push_pop_round_trip() {
    // PUSH BC; POP DE; PUSH HL; POP BC; PUSH DE; POP HL; PUSH AF; POP AF
    let (mut cpu, mut bus) = setup(&[0xC5, 0xD1, 0xE5, 0xC1, 0xD5, 0xE1, 0xF5, 0xF1]);
    cpu.reg.set_bc(0x1234);
    cpu.reg.set_hl(0xBEEF);
    cpu.reg.set_af(0x56F0);
    cpu.step(&mut bus);
    cpu.step(&mut bus);
    assert_eq!(cpu.reg.de(), 0x1234);
    cpu.step(&mut bus);
    cpu.step(&mut bus);
    assert_eq!(cpu.reg.bc(), 0xBEEF);
    cpu.step(&mut bus);
    cpu.step(&mut bus);
    assert_eq!(cpu.reg.hl(), 0x1234);
    cpu.step(&mut bus);
    cpu.step(&mut bus);
    assert_eq!(cpu.reg.af(), 0x56F0);
    assert_eq!(cpu.reg.sp, 0xFFFE);
}

#[test]
fn pop_af_clears_low_nibble() {
    let (mut cpu, mut bus) = setup(&[0xF1]);
    cpu.reg.sp = 0xC000;
    bus.write_byte(0xC000, 0xFF);
    bus.write_byte(0xC001, 0x12);
    cpu.step(&mut bus);
    assert_eq!(cpu.reg.af(), 0x12F0);
}

#[test]
fn add_sub_flags_match_table() {
    for a in 0u16..=255 {
        for x in 0u16..=255 {
            for cin in 0u16..=1 {
                let (mut cpu, mut bus) = setup(&[0xCE, x as u8, 0xDE, x as u8]);
                cpu.reg.a = a as u8;
                cpu.reg.f = if cin == 1 { 0x10 } else { 0 };
                cpu.step(&mut bus);
                let sum = a + x + cin;
                assert_eq!(cpu.reg.a as u16, sum & 0xFF);
                assert_eq!(cpu.reg.zero(), sum & 0xFF == 0);
                assert!(!cpu.reg.subtract());
                assert_eq!(cpu.reg.half_carry(), (a & 0xF) + (x & 0xF) + cin > 0xF);
                assert_eq!(cpu.reg.carry(), sum > 0xFF);
                cpu.reg.a = a as u8;
                cpu.reg.f = if cin == 1 { 0x10 } else { 0 };
                cpu.step(&mut bus);
                let diff = (a + 512 - x - cin) & 0xFF;
                assert_eq!(cpu.reg.a as u16, diff);
                assert_eq!(cpu.reg.zero(), diff == 0);
                assert!(cpu.reg.subtract());
                assert_eq!(cpu.reg.half_carry(), (a & 0xF) < (x & 0xF) + cin);
                assert_eq!(cpu.reg.carry(), a < x + cin);
            }
        }
    }
}

#[test]
fn add_and_sub_without_carry() {
    let (mut cpu, mut bus) = setup(&[0xC6, 0xFF, 0xD6, 0x01, 0xFE, 0x00]);
    cpu.reg.a = 0x01;
    cpu.step(&mut bus);
    assert_eq!(cpu.reg.a, 0x00);
    assert_eq!(cpu.reg.f, 0xB0);
    cpu.step(&mut bus);
    assert_eq!(cpu.reg.a, 0xFF);
    assert_eq!(cpu.reg.f, 0x70);
    cpu.step(&mut bus);
    assert_eq!(cpu.reg.a, 0xFF);
    assert_eq!(cpu.reg.f, 0x40);
}

#[test]
fn rotations_return_after_eight() {
    // RLC B eight times, then RRC B eight times
    let mut program = Vec::new();
    for _ in 0..8 {
        program.extend_from_slice(&[0xCB, 0x00]);
    }
    for _ in 0..8 {
        program.extend_from_slice(&[0xCB, 0x08]);
    }
    let (mut cpu, mut bus) = setup(&program);
    cpu.reg.b = 0x81;
    for _ in 0..8 {
        assert_eq!(cpu.step(&mut bus), 8);
    }
    assert_eq!(cpu.reg.b, 0x81);
    assert!(cpu.reg.carry());
    for _ in 0..8 {
        cpu.step(&mut bus);
    }
    assert_eq!(cpu.reg.b, 0x81);
    assert!(cpu.reg.carry());
}

#[test]
fn rotation_through_carry_returns_after_nine() {
    let mut program = Vec::new();
    for _ in 0..9 {
        program.extend_from_slice(&[0xCB, 0x11]);
    }
    let (mut cpu, mut bus) = setup(&program);
    cpu.reg.c = 0xA5;
    cpu.reg.f = 0;
    for _ in 0..9 {
        cpu.step(&mut bus);
    }
    assert_eq!(cpu.reg.c, 0xA5);
    assert!(!cpu.reg.carry());
}

#[test]
fn shifts_empty_the_byte() {
    // SLA D eight times
    let mut program = Vec::new();
    for _ in 0..8 {
        program.extend_from_slice(&[0xCB, 0x22]);
    }
    let (mut cpu, mut bus) = setup(&program);
    cpu.reg.d = 0xFF;
    for _ in 0..8 {
        cpu.step(&mut bus);
        assert!(cpu.reg.carry());
    }
    assert_eq!(cpu.reg.d, 0);
    assert!(cpu.reg.zero());
}

#[test]
fn swap_bit_res_set_on_memory() {
    // LD HL,0xC000; SWAP (HL); BIT 0,(HL); RES 4,(HL); SET 7,(HL)
    let (mut cpu, mut bus) = setup(&[0x21, 0x00, 0xC0, 0xCB, 0x36, 0xCB, 0x46, 0xCB, 0xA6, 0xCB, 0xFE]);
    bus.write_byte(0xC000, 0x1E);
    cpu.step(&mut bus);
    assert_eq!(cpu.step(&mut bus), 16);
    assert_eq!(bus.read_byte(0xC000), 0xE1);
    assert_eq!(cpu.step(&mut bus), 12);
    assert!(!cpu.reg.zero());
    assert!(cpu.reg.half_carry());
    cpu.step(&mut bus);
    assert_eq!(bus.read_byte(0xC000), 0xE1);
    cpu.step(&mut bus);
    assert_eq!(bus.read_byte(0xC000), 0xE1);
}

#[test]
fn jr_backwards_and_conditional() {
    // JR -2 loops on itself; JR NZ not taken when Z set
    let (mut cpu, mut bus) = setup(&[0x18, 0xFE]);
    cpu.step(&mut bus);
    assert_eq!(cpu.reg.pc, 0x0100);
    load(&mut bus, 0x0100, &[0x20, 0x10]);
    cpu.reg.f = 0x80;
    cpu.step(&mut bus);
    assert_eq!(cpu.reg.pc, 0x0102);
}

#[test]
fn add_sp_uses_low_byte_flags() {
    // ADD SP,-1 with SP = 0x0001; LD HL,SP+1
    let (mut cpu, mut bus) = setup(&[0xE8, 0xFF, 0xF8, 0x01]);
    cpu.reg.sp = 0x0001;
    cpu.step(&mut bus);
    assert_eq!(cpu.reg.sp, 0x0000);
    assert_eq!(cpu.reg.f, 0x30);
    cpu.step(&mut bus);
    assert_eq!(cpu.reg.hl(), 0x0001);
    assert_eq!(cpu.reg.f, 0x00);
}

#[test]
fn add_hl_half_carry_from_bit_eleven() {
    let (mut cpu, mut bus) = setup(&[0x09]);
    cpu.reg.set_hl(0x0FFF);
    cpu.reg.set_bc(0x0001);
    cpu.reg.f = 0x80;
    cpu.step(&mut bus);
    assert_eq!(cpu.reg.hl(), 0x1000);
    assert_eq!(cpu.reg.f, 0xA0);
}

#[test]
fn inc_dec_flags() {
    // INC A; DEC B
    let (mut cpu, mut bus) = setup(&[0x3C, 0x05]);
    cpu.reg.a = 0xFF;
    cpu.reg.b = 0x10;
    cpu.reg.f = 0x10;
    cpu.step(&mut bus);
    assert_eq!(cpu.reg.a, 0);
    assert_eq!(cpu.reg.f, 0xB0);
    cpu.step(&mut bus);
    assert_eq!(cpu.reg.b, 0x0F);
    assert_eq!(cpu.reg.f, 0x70);
}

#[test]
fn load_through_hl_increment() {
    // LD (HL+),A ; LD A,(HL-)
    let (mut cpu, mut bus) = setup(&[0x22, 0x3A]);
    cpu.reg.set_hl(0xC000);
    cpu.reg.a = 0x77;
    bus.write_byte(0xC001, 0x99);
    cpu.step(&mut bus);
    assert_eq!(bus.read_byte(0xC000), 0x77);
    assert_eq!(cpu.reg.hl(), 0xC001);
    cpu.step(&mut bus);
    assert_eq!(cpu.reg.a, 0x99);
    assert_eq!(cpu.reg.hl(), 0xC000);
}

#[test]
fn cpl_ccf_scf() {
    let (mut cpu, mut bus) = setup(&[0x2F, 0x37, 0x3F]);
    cpu.reg.a = 0x0F;
    cpu.reg.f = 0;
    cpu.step(&mut bus);
    assert_eq!(cpu.reg.a, 0xF0);
    assert_eq!(cpu.reg.f, 0x60);
    cpu.step(&mut bus);
    assert_eq!(cpu.reg.f, 0x10);
    cpu.step(&mut bus);
    assert_eq!(cpu.reg.f, 0x00);
}

#[test]
fn can_step_refuses_unassigned_opcode() {
    let (cpu, bus) = setup(&[0xD3]);
    assert!(!cpu.can_step(&bus));
    let (cpu, bus) = setup(&[0x00]);
    assert!(cpu.can_step(&bus));
}

use i8080_emulator::cpu::{Event, CPU};
use i8080_emulator::memory::Memory;
use i8080_emulator::registers::Flag;

fn cpu_with(program: &[u8]) -> CPU {
    let mut memory = [0u8; 0x10000];
    memory[..program.len()].copy_from_slice(program);
    CPU::new(memory)
}

fn step(cpu: &mut CPU) -> Event {
    let op = cpu.fetch();
    cpu.exec(op)
}

#[test]
fn jmp_scenario() {
    let mut cpu = cpu_with(&[0xc3, 0xff, 0x02]);
    assert_eq!(step(&mut cpu), Event::Normal(10));
    assert_eq!(cpu.pc, 0x02ff);
}

#[test]
fn call_pushes_return_address_with_wrapping_sp() {
    let mut cpu = cpu_with(&[0xcd, 0xff, 0x02]);
    cpu.sp = 0x0000;
    assert_eq!(step(&mut cpu), Event::Normal(17));
    assert_eq!(cpu.pc, 0x02ff);
    assert_eq!(cpu.sp, 0xfffe);
    assert_eq!(cpu.memory.read16(0xfffe), 0x0003);
}

#[test]
fn lxi_hl_scenario() {
    let mut cpu = cpu_with(&[0x21, 0x02, 0xff]);
    assert_eq!(step(&mut cpu), Event::Normal(10));
    assert_eq!(cpu.regs.get_hl(), 0xff02);
    assert_eq!(cpu.pc, 3);
}

// 0xFE + 0x01: the low nibbles sum to 0xF, which is no carry out of bit 3.
#[test]
fn adi_scenario() {
    let mut cpu = cpu_with(&[0xc6, 0x01]);
    cpu.regs.a = 0xfe;
    assert_eq!(step(&mut cpu), Event::Normal(7));
    assert_eq!(cpu.regs.a, 0xff);
    assert!(!cpu.regs.get_flag(Flag::C));
    assert!(!cpu.regs.get_flag(Flag::Z));
    assert!(cpu.regs.get_flag(Flag::S));
    assert!(cpu.regs.get_flag(Flag::P));
    assert!(!cpu.regs.get_flag(Flag::A));
    assert_eq!(cpu.pc, 2);
}

#[test]
fn cpi_scenario() {
    let mut cpu = cpu_with(&[0xfe, 0x02]);
    cpu.regs.a = 0x01;
    assert_eq!(step(&mut cpu), Event::Normal(7));
    assert_eq!(cpu.regs.a, 0x01);
    assert!(cpu.regs.get_flag(Flag::C));
    assert!(!cpu.regs.get_flag(Flag::Z));
    assert!(cpu.regs.get_flag(Flag::S));
}

#[test]
fn daa_scenario() {
    let mut cpu = cpu_with(&[0x27]);
    cpu.regs.a = 0x9b;
    cpu.regs.set_flag(Flag::C, false);
    cpu.regs.set_flag(Flag::A, false);
    assert_eq!(step(&mut cpu), Event::Normal(4));
    assert_eq!(cpu.regs.a, 0x01);
    assert!(cpu.regs.get_flag(Flag::C));
}

#[test]
fn push_pop_de_round_trip() {
    let mut cpu = cpu_with(&[0xd5, 0xd1]);
    cpu.regs.set_de(0xff02);
    let sp = cpu.sp;
    assert_eq!(step(&mut cpu), Event::Normal(11));
    assert_eq!(cpu.sp, sp.wrapping_sub(2));
    cpu.regs.set_de(0);
    assert_eq!(step(&mut cpu), Event::Normal(10));
    assert_eq!(cpu.regs.get_de(), 0xff02);
    assert_eq!(cpu.sp, sp);
}

#[test]
fn push_pop_survives_other_instructions() {
    // MVI A,0x42; INR B; MOV C,A; XCHG
    let mut cpu = cpu_with(&[0x3e, 0x42, 0x04, 0x4f, 0xeb]);
    let sp = cpu.sp;
    cpu.push(0x1234);
    for _ in 0..4 {
        step(&mut cpu);
    }
    assert_eq!(cpu.pop(), 0x1234);
    assert_eq!(cpu.sp, sp);
}

#[test]
fn mov_same_register_changes_nothing() {
    for op in [0x40u8, 0x49, 0x52, 0x5b, 0x64, 0x6d, 0x7f] {
        let mut cpu = cpu_with(&[op]);
        cpu.regs.set_bc(0x1122);
        cpu.regs.set_de(0x3344);
        cpu.regs.set_hl(0x5566);
        cpu.regs.a = 0x77;
        cpu.regs.f = 0xd7;
        assert_eq!(step(&mut cpu), Event::Normal(5));
        assert_eq!(
            (cpu.regs.get_bc(), cpu.regs.get_de(), cpu.regs.get_hl(), cpu.regs.a, cpu.regs.f),
            (0x1122, 0x3344, 0x5566, 0x77, 0xd7)
        );
    }
}

#[test]
fn xchg_twice_restores_and_keeps_flags() {
    let mut cpu = cpu_with(&[0xeb, 0xeb]);
    cpu.regs.set_de(0xabcd);
    cpu.regs.set_hl(0x1357);
    cpu.regs.f = 0x93;
    assert_eq!(step(&mut cpu), Event::Normal(5));
    assert_eq!(cpu.regs.f, 0x93);
    assert_eq!(cpu.regs.get_de(), 0x1357);
    step(&mut cpu);
    assert_eq!(cpu.regs.get_de(), 0xabcd);
    assert_eq!(cpu.regs.get_hl(), 0x1357);
    assert_eq!(cpu.regs.f, 0x93);
}

#[test]
fn inr_then_dcr_restores_register_and_carry() {
    // INR B; DCR B
    let mut cpu = cpu_with(&[0x04, 0x05]);
    cpu.regs.b = 0xff;
    cpu.regs.a = 0x5a;
    cpu.regs.set_flag(Flag::C, true);
    step(&mut cpu);
    assert_eq!(cpu.regs.b, 0x00);
    assert!(cpu.regs.get_flag(Flag::Z));
    assert!(cpu.regs.get_flag(Flag::A));
    assert!(cpu.regs.get_flag(Flag::C));
    step(&mut cpu);
    assert_eq!(cpu.regs.b, 0xff);
    assert_eq!(cpu.regs.a, 0x5a);
    assert!(cpu.regs.get_flag(Flag::C));
    assert!(cpu.regs.get_flag(Flag::S));
    assert!(!cpu.regs.get_flag(Flag::Z));
}

#[test]
fn inr_dcr_on_memory_operand() {
    // INR M; DCR M
    let mut cpu = cpu_with(&[0x34, 0x35]);
    cpu.regs.set_hl(0x2000);
    cpu.memory.write(0x2000, 0x0f);
    assert_eq!(step(&mut cpu), Event::Normal(10));
    assert_eq!(cpu.memory.read(0x2000), 0x10);
    assert!(cpu.regs.get_flag(Flag::A));
    assert_eq!(step(&mut cpu), Event::Normal(10));
    assert_eq!(cpu.memory.read(0x2000), 0x0f);
}

#[test]
fn dad_sets_carry_only_on_overflow() {
    // DAD B twice
    let mut cpu = cpu_with(&[0x09, 0x09]);
    cpu.regs.set_hl(0xf000);
    cpu.regs.set_bc(0x0fff);
    cpu.regs.f = 0xd6;
    assert_eq!(step(&mut cpu), Event::Normal(10));
    assert_eq!(cpu.regs.get_hl(), 0xffff);
    assert_eq!(cpu.regs.f, 0xd6);
    step(&mut cpu);
    assert_eq!(cpu.regs.get_hl(), 0x0ffe);
    assert_eq!(cpu.regs.f, 0xd7);
}

#[test]
fn dad_sp_and_hl() {
    // DAD H; DAD SP
    let mut cpu = cpu_with(&[0x29, 0x39]);
    cpu.regs.set_hl(0x8001);
    step(&mut cpu);
    assert_eq!(cpu.regs.get_hl(), 0x0002);
    assert!(cpu.regs.get_flag(Flag::C));
    cpu.sp = 0x1000;
    step(&mut cpu);
    assert_eq!(cpu.regs.get_hl(), 0x1002);
    assert!(!cpu.regs.get_flag(Flag::C));
}

#[test]
fn cmp_sets_the_flags_of_sub() {
    for (a, b) in [(0x01u8, 0x02u8), (0x42, 0x42), (0x80, 0x01), (0x10, 0x01), (0x00, 0xff)] {
        let mut cmp = cpu_with(&[0xb8]);
        let mut sub = cpu_with(&[0x90]);
        cmp.regs.a = a;
        cmp.regs.b = b;
        sub.regs.a = a;
        sub.regs.b = b;
        step(&mut cmp);
        step(&mut sub);
        assert_eq!(cmp.regs.a, a);
        assert_eq!(sub.regs.a, a.wrapping_sub(b));
        assert_eq!(cmp.regs.f, sub.regs.f);
    }
}

#[test]
fn logical_operations_clear_carry() {
    for op in [0xa0u8, 0xa8, 0xb0, 0xe6, 0xee, 0xf6] {
        let mut cpu = cpu_with(&[op, 0x0f]);
        cpu.regs.a = 0xf8;
        cpu.regs.b = 0x3c;
        cpu.regs.set_flag(Flag::C, true);
        step(&mut cpu);
        assert!(!cpu.regs.get_flag(Flag::C));
    }
}

#[test]
fn rlc_eight_times_restores_a() {
    let mut cpu = cpu_with(&[0x07; 8]);
    cpu.regs.a = 0b1011_0011;
    cpu.regs.f = 0x02;
    for _ in 0..8 {
        assert_eq!(step(&mut cpu), Event::Normal(4));
    }
    assert_eq!(cpu.regs.a, 0b1011_0011);
    assert!(cpu.regs.get_flag(Flag::C));
    assert_eq!(cpu.regs.f, 0x03);
}

#[test]
fn pc_wraps_past_top_of_memory() {
    let mut cpu = cpu_with(&[]);
    cpu.pc = 0xffff;
    assert_eq!(step(&mut cpu), Event::Normal(4));
    assert_eq!(cpu.pc, 0x0000);
}

use i8080_emulator::cpu::CPU;
use i8080_emulator::memory::Memory;
use i8080_emulator::registers::Flag;

#[test]
fn test_get_m() {
    let mut cpu = CPU::new_empty();
    cpu.regs.set_hl(1);
    cpu.memory.write(1, 0xff);
    assert_eq!(cpu.get_m(), 0xff);
}

#[test]
fn test_set_m() {
    let mut cpu = CPU::new_empty();
    cpu.regs.set_hl(1);
    cpu.set_m(0xff);
    assert_eq!(cpu.memory.read(1), 0xff);
}

#[test]
fn test_jmp() {
    let mut memory = [0; 0x10000];
    memory[0] = 0xc3;
    memory[1] = 0xff;
    memory[2] = 0x02;
    let mut cpu = CPU::new(memory);
    let op = cpu.fetch();
    cpu.exec(op);
    assert_eq!(cpu.pc, 0x02ff);
}

#[test]
fn test_jc() {
    let mut memory = [0; 0x10000];
    memory[0] = 0xda;
    memory[1] = 0xff;
    memory[2] = 0x02;
    let mut cpu = CPU::new(memory);
    cpu.regs.set_flag(Flag::C, true);
    let op = cpu.fetch();
    cpu.exec(op);
    assert_eq!(cpu.pc, 0x02ff);
}

#[test]
fn test_jnc_no_jump() {
    let mut memory = [0; 0x10000];
    memory[0] = 0xd2;
    memory[1] = 0xff;
    memory[2] = 0x02;
    let mut cpu = CPU::new(memory);
    cpu.regs.set_flag(Flag::C, true);
    let op = cpu.fetch();
    cpu.exec(op);
    assert_eq!(cpu.pc, 0x03);
}

#[test]
fn test_jz_no_jump() {
    let mut memory = [0; 0x10000];
    memory[0] = 0xca;
    memory[1] = 0xff;
    memory[2] = 0x02;
    let mut cpu = CPU::new(memory);
    cpu.regs.set_flag(Flag::Z, false);
    let op = cpu.fetch();
    cpu.exec(op);
    assert_eq!(cpu.pc, 0x03);
}

#[test]
fn test_jnz() {
    let mut memory = [0; 0x10000];
    memory[0] = 0xc2;
    memory[1] = 0xff;
    memory[2] = 0x02;
    let mut cpu = CPU::new(memory);
    cpu.regs.set_flag(Flag::Z, false);
    let op = cpu.fetch();
    cpu.exec(op);
    assert_eq!(cpu.pc, 0x02ff);
}

#[test]
fn test_jp() {
    let mut memory = [0; 0x10000];
    memory[0] = 0xf2;
    memory[1] = 0xff;
    memory[2] = 0x02;
    let mut cpu = CPU::new(memory);
    cpu.regs.set_flag(Flag::S, false);
    let op = cpu.fetch();
    cpu.exec(op);
    assert_eq!(cpu.pc, 0x02ff);
}

#[test]
fn test_jm() {
    let mut memory = [0; 0x10000];
    memory[0] = 0xfa;
    memory[1] = 0xff;
    memory[2] = 0x02;
    let mut cpu = CPU::new(memory);
    cpu.regs.set_flag(Flag::S, true);
    let op = cpu.fetch();
    cpu.exec(op);
    assert_eq!(cpu.pc, 0x02ff);
}

#[test]
fn test_jpe() {
    let mut memory = [0; 0x10000];
    memory[0] = 0xea;
    memory[1] = 0xff;
    memory[2] = 0x02;
    let mut cpu = CPU::new(memory);
    cpu.regs.set_flag(Flag::P, true);
    let op = cpu.fetch();
    cpu.exec(op);
    assert_eq!(cpu.pc, 0x02ff);
}

#[test]
fn test_jpo() {
    let mut memory = [0; 0x10000];
    memory[0] = 0xe2;
    memory[1] = 0xff;
    memory[2] = 0x02;
    let mut cpu = CPU::new(memory);
    cpu.regs.set_flag(Flag::P, false);
    let op = cpu.fetch();
    cpu.exec(op);
    assert_eq!(cpu.pc, 0x02ff);
}

#[test]
fn test_call() {
    let mut memory = [0x00; 0x10000];
    memory[0] = 0xcd;
    memory[1] = 0xff;
    memory[2] = 0x02;
    let mut cpu = CPU::new(memory);
    let op = cpu.fetch();
    cpu.exec(op);
    assert_eq!(cpu.pc, 0x02ff);
    assert_eq!(cpu.sp, 0xeffe);
    assert_eq!(cpu.memory.read16(0xeffe), 0x03);
}

#[test]
fn test_cc() {
    let mut memory = [0x00; 0x10000];
    memory[0] = 0xdc;
    memory[1] = 0xff;
    memory[2] = 0x02;
    let mut cpu = CPU::new(memory);
    cpu.regs.set_flag(Flag::C, true);
    let op = cpu.fetch();
    cpu.exec(op);
    assert_eq!(cpu.pc, 0x02ff);
    assert_eq!(cpu.sp, 0xeffe);
    assert_eq!(cpu.memory.read16(0xeffe), 0x03);
}

#[test]
fn test_cnc_no_jump() {
    let mut memory = [0x00; 0x10000];
    memory[0] = 0xcd;
    memory[1] = 0xff;
    memory[2] = 0x02;
    let mut cpu = CPU::new(memory);
    cpu.regs.set_flag(Flag::C, true);
    let op = cpu.fetch();
    cpu.exec(op);
    assert_eq!(cpu.pc, 0x02ff);
    assert_eq!(cpu.sp, 0xeffe);
    assert_eq!(cpu.memory.read16(0xeffe), 0x03);
}

#[test]
fn test_ret() {
    let mut memory = [0x00; 0x10000];
    memory[0] = 0xcd;
    memory[1] = 0xff;
    memory[2] = 0x02;
    let mut cpu = CPU::new(memory);
    cpu.regs.set_flag(Flag::C, true);
    let op = cpu.fetch();
    cpu.exec(op);
    assert_eq!(cpu.pc, 0x02ff);
    assert_eq!(cpu.sp, 0xeffe);
    assert_eq!(cpu.memory.read16(0xeffe), 0x03);
}

#[test]
fn test_lxi() {
    let mut memory = [0x00; 0x10000];
    memory[0] = 0x21;
    memory[1] = 0x02;
    memory[2] = 0xff;
    let mut cpu = CPU::new(memory);
    let op = cpu.fetch();
    cpu.exec(op);
    assert_eq!(cpu.regs.get_hl(), 0xff02);
}

#[test]
fn test_push() {
    let mut memory = [0x00; 0x10000];
    memory[0] = 0xd5;
    let mut cpu = CPU::new(memory);
    cpu.regs.set_de(0xff02);
    let op = cpu.fetch();
    cpu.exec(op);
    assert_eq!(cpu.memory.read16(0xf000 - 2), 0xff02);
}

#[test]
fn test_pop() {
    let mut memory = [0x00; 0x10000];
    memory[0x00] = 0xd1;
    memory[0xf000 - 2] = 0xff;
    memory[0xf000 - 1] = 0x02;
    let mut cpu = CPU::new(memory);
    cpu.sp -= 2;
    let op = cpu.fetch();
    cpu.exec(op);
    assert_eq!(cpu.regs.get_de(), 0x02ff);
}

#[test]
fn test_xchg() {
    let mut memory = [0x00; 0x10000];
    memory[0] = 0xeb;
    let mut cpu = CPU::new(memory);
    cpu.regs.set_de(0xff02);
    cpu.regs.set_hl(0x1001);
    let op = cpu.fetch();
    cpu.exec(op);
    assert_eq!(cpu.regs.get_hl(), 0xff02);
    assert_eq!(cpu.regs.get_de(), 0x1001);
}

#[test]
fn test_mvi() {
    let mut memory = [0x00; 0x10000];
    memory[0] = 0x0e;
    memory[1] = 0xff;
    let mut cpu = CPU::new(memory);
    let op = cpu.fetch();
    cpu.exec(op);
    assert_eq!(cpu.regs.c, 0xff);
}

#[test]
fn test_ani() {
    let mut memory = [0x00; 0x10000];
    memory[0] = 0xe6;
    memory[1] = 0x00;
    let mut cpu = CPU::new(memory);
    cpu.regs.a = 0xff;
    let op = cpu.fetch();
    cpu.exec(op);
    assert_eq!(cpu.regs.a, 0x00);
}

#[test]
fn test_adi() {
    let mut memory = [0x00; 0x10000];
    memory[0] = 0xc6;
    memory[1] = 0x01;
    let mut cpu = CPU::new(memory);
    cpu.regs.a = 0xfe;
    let op = cpu.fetch();
    cpu.exec(op);
    assert_eq!(cpu.regs.a, 0xff);
}

#[test]
fn test_cpi() {
    let mut memory = [0x00; 0x10000];
    memory[0] = 0xfe;
    memory[1] = 0x02;
    let mut cpu = CPU::new(memory);
    cpu.regs.a = 0x01;
    let op = cpu.fetch();
    cpu.exec(op);
    assert_eq!(cpu.regs.f, 0x97);
}

#[test]
fn test_lda() {
    let mut memory = [0x00; 0x10000];
    memory[0] = 0x3a;
    memory[1] = 0x02;
    memory[2] = 0xff;
    memory[0xff02] = 0xff;
    let mut cpu = CPU::new(memory);
    let op = cpu.fetch();
    cpu.exec(op);
    assert_eq!(cpu.regs.a, 0xff);
}

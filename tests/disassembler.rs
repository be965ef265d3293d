use i8080_emulator::disassembler::Disassembler;
use i8080_emulator::memory::Memory8080;

fn memory_with(at: usize, bytes: &[u8]) -> Memory8080 {
    let mut memory = Memory8080::new_empty();
    memory.memory[at..at + bytes.len()].copy_from_slice(bytes);
    memory
}

#[test]
fn disassembles_immediate_byte() {
    let memory = memory_with(0x100, &[0x3e, 0x42]);
    let d = Disassembler::new();
    assert_eq!(d.disassemble(&memory, &0x100, &0x3e, &0), "100    MVI A, 0x42");
}

#[test]
fn disassembles_jump_address() {
    let memory = memory_with(0, &[0xc3, 0xff, 0x02]);
    let d = Disassembler::new();
    assert_eq!(d.disassemble(&memory, &0, &0xc3, &0), "0    JMP $(0x2ff)");
}

#[test]
fn disassembles_memory_operand_through_hl() {
    let memory = memory_with(0x10, &[0x77]);
    let d = Disassembler::new();
    assert_eq!(d.disassemble(&memory, &0x10, &0x77, &0x2000), "10    MOV $(0x2000), A");
    assert_eq!(d.disassemble(&memory, &0x10, &0x86, &0xbeef), "10    ADD $(0xbeef)");
}

#[test]
fn disassembles_word_immediate_and_plain() {
    let memory = memory_with(0xabcd, &[0x21, 0x02, 0xff]);
    let d = Disassembler::new();
    assert_eq!(d.disassemble(&memory, &0xabcd, &0x21, &0), "abcd    LXI H, 0xff02");
    assert_eq!(d.disassemble(&memory, &0xabcd, &0x76, &0), "abcd    HLT");
    assert_eq!(d.disassemble(&memory, &0xabcd, &0xff, &0), "abcd    RST 7");
    assert_eq!(d.disassemble(&memory, &0xabcd, &0xf5, &0), "abcd    PUSH PSW");
}

#[test]
fn disassembles_conditions_and_immediates() {
    let memory = memory_with(0x20, &[0xfe, 0x0a, 0x00]);
    let d = Disassembler::new();
    assert_eq!(d.disassemble(&memory, &0x20, &0xfe, &0), "20    CPI 0xa");
    assert_eq!(d.disassemble(&memory, &0x20, &0xc4, &0), "20    CNZ $(0xa)");
    assert_eq!(d.disassemble(&memory, &0x20, &0xe8, &0), "20    RPE");
    assert_eq!(d.disassemble(&memory, &0x20, &0xdb, &0), "20    IN 0xa");
}

#[test]
fn operand_after_top_of_memory_wraps() {
    let mut memory = memory_with(0xffff, &[0x06]);
    memory.memory[0] = 0x99;
    let d = Disassembler::new();
    assert_eq!(d.disassemble(&memory, &0xffff, &0x06, &0), "ffff    MVI B, 0x99");
}

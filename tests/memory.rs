use i8080_emulator::memory::{Memory, Memory8080};

#[test]
fn read() {
    let mut memory = Memory8080::new_empty();
    memory.memory[0] = 0xff;
    memory.memory[1] = 0x02;
    assert_eq!(memory.read(0), 0xff);
}

#[test]
fn write() {
    let mut memory = Memory8080::new_empty();
    memory.write(4, 0xff);
    assert_eq!(memory.memory[4], 0xff);
}

// Words are little-endian: the byte at the lower address is the low byte.
#[test]
fn read16() {
    let mut memory = Memory8080::new_empty();
    memory.memory[0] = 0xff;
    memory.memory[1] = 0x02;
    assert_eq!(memory.read16(0), 0x02ff);
}

#[test]
fn write16() {
    let mut memory = Memory8080::new_empty();
    memory.write16(4, 0xff02);
    assert_eq!(memory.memory[4], 0x02);
    assert_eq!(memory.memory[5], 0xff);
}

#[test]
fn read16_wraps_at_top_of_memory() {
    let mut memory = Memory8080::new_empty();
    memory.memory[0xffff] = 0x34;
    memory.memory[0] = 0x12;
    assert_eq!(memory.read16(0xffff), 0x1234);
}

#[test]
fn write16_wraps_at_top_of_memory() {
    let mut memory = Memory8080::new_empty();
    memory.write16(0xffff, 0xabcd);
    assert_eq!(memory.memory[0xffff], 0xcd);
    assert_eq!(memory.memory[0], 0xab);
}

#[test]
fn write_then_read_every_edge_address() {
    let mut memory = Memory8080::new_empty();
    for a in [0usize, 1, 0x7fff, 0xfffe, 0xffff] {
        memory.write(a, (a % 251) as u8 + 1);
        assert_eq!(memory.read(a), (a % 251) as u8 + 1);
    }
}

#[test]
fn write16_then_read16() {
    let mut memory = Memory8080::new_empty();
    memory.write16(0x1234, 0xbeef);
    assert_eq!(memory.read16(0x1234), 0xbeef);
    assert_eq!(memory.read(0x1234) as u16 | ((memory.read(0x1235) as u16) << 8), 0xbeef);
}

#[test]
fn new_keeps_image() {
    let mut image = [0u8; 0x10000];
    image[0x100] = 0x3e;
    image[0xffff] = 0x76;
    let memory = Memory8080::new(image);
    assert_eq!(memory.read(0x100), 0x3e);
    assert_eq!(memory.read(0xffff), 0x76);
    assert_eq!(memory.read(0x101), 0);
}

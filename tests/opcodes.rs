use chip8::emulator::Emulator;
use chip8::prep_buffer;

fn create_buffer(program: Vec<u8>) -> Vec<u8> {
    let mut buffer = vec![0u8; 4096];
    buffer[0..program.len()].copy_from_slice(&program);
    prep_buffer(&mut buffer);
    buffer
}

fn loaded(program: Vec<u8>) -> Emulator {
    let program = create_buffer(program);
    let mut emulator = Emulator::new();
    emulator.load(&program).unwrap();
    emulator
}

#[test]
fn test_opcode_1_nnn() {
    let mut emulator = loaded(vec![0x12, 0x34]);
    assert!(emulator.pc == 0x200, "PC should initially be 0x200");
    emulator.step().unwrap();
    assert!(emulator.pc == 0x234, "PC should be 0x234 after opcode 0x1234");
}

#[test]
fn test_opcode_3_x_nn_pos() {
    let mut emulator = loaded(vec![0x30, 0x00, 0xFF, 0xFF]);
    assert!(emulator.pc == 0x200, "PC should initially be 0x200");
    emulator.step().unwrap();
    assert!(emulator.pc == 0x204, "PC should be 0x204 after opcode 0x3000");
}

#[test]
fn test_opcode_3_x_nn_neg() {
    let mut emulator = loaded(vec![0x30, 0x01, 0xFF, 0xFF]);
    assert!(emulator.pc == 0x200, "PC should initially be 0x200");
    emulator.step().unwrap();
    assert!(emulator.pc == 0x202, "PC should be 0x202 after opcode 0x3001");
}

#[test]
fn test_opcode_4_x_nn_pos() {
    let mut emulator = loaded(vec![0x40, 0x01, 0xFF, 0xFF]);
    assert!(emulator.pc == 0x200, "PC should initially be 0x200");
    emulator.step().unwrap();
    assert!(emulator.pc == 0x204, "PC should be 0x204 after opcode 0x4001");
}

#[test]
fn test_opcode_4_x_nn_neg() {
    let mut emulator = loaded(vec![0x40, 0x00, 0xFF, 0xFF]);
    assert!(emulator.pc == 0x200, "PC should initially be 0x200");
    emulator.step().unwrap();
    assert!(emulator.pc == 0x202, "PC should be 0x202 after opcode 0x4000");
}

#[test]
fn test_opcode_5_x_y_pos() {
    let mut emulator = loaded(vec![0x51, 0x20, 0xFF, 0xFF, 0x53, 0x40]);
    assert!(emulator.pc == 0x200, "PC should initially be 0x200");
    emulator.step().unwrap();
    assert!(emulator.pc == 0x204, "PC should be 0x204 after opcode 0x5120");
    emulator.registers[3].v = 0x4;
    emulator.registers[4].v = 0x4;
    emulator.step().unwrap();
    assert!(emulator.pc == 0x208, "PC should be 0x208 after opcode 0x5340");
}

#[test]
fn test_opcode_5_x_y_neg() {
    let mut emulator = loaded(vec![0x51, 0x20, 0x53, 0x40]);
    assert!(emulator.pc == 0x200, "PC should initially be 0x200");
    emulator.registers[1].v = 0x1;
    emulator.step().unwrap();
    assert!(emulator.pc == 0x202, "PC should be 0x202 after opcode 0x5120");
    emulator.registers[3].v = 0x4;
    emulator.registers[4].v = 0x5;
    emulator.step().unwrap();
    assert!(emulator.pc == 0x204, "PC should be 0x204 after opcode 0x5340");
}

#[test]
fn test_opcode_6_x_nn() {
    let mut emulator = loaded(vec![0x60, 0x01, 0x61, 0x02, 0x62, 0x03]);
    emulator.step().unwrap();
    assert!(emulator.registers[0].v == 0x01, "V0 should be 0x1 after opcode 0x6001");
    assert!(emulator.registers[1].v == 0x00, "V1 should be 0x0 after opcode 0x6102");
    emulator.step().unwrap();
    emulator.step().unwrap();
    assert!(emulator.registers[2].v == 0x03, "V2 should be 0x3 after opcode 0x6203");
}

#[test]
fn test_opcode_7_x_nn() {
    let mut emulator = loaded(vec![0x70, 0x02, 0x70, 0xFF]);
    assert!(emulator.registers[0].v == 0x00, "V0 should be 0x0 before opcode 0x7002");
    emulator.step().unwrap();
    assert!(emulator.registers[0].v == 0x02, "V0 should be 0x2 after opcode 0x7002");
    emulator.step().unwrap();
    assert!(emulator.registers[0].v == 0x01, "V1 should be 0x1 after opcode 0x71FF");
    assert!(emulator.registers[0xF].v == 0x00, "VF should be 0x0 after opcode 0x71FF")
}

#[test]
fn test_opcode_f_x_33() {
    let mut emulator = loaded(vec![0x60, 0x12, 0xF0, 0x33]);
    emulator.step().unwrap();
    emulator.step().unwrap();
    let i = emulator.index as usize;
    assert!(emulator.memory[i] == 0, "Memory at I should be 0x0 after opcode 0xF033 {:?}", emulator.index);
    assert!(emulator.memory[i + 1] == 1, "Memory at I+1 should be 0x1 after opcode 0xF033");
    assert!(
        emulator.memory[i + 2] == 8,
        "Memory at I+2 should be 0x2 after opcode 0xF033 {:?}, 0x{:0X?} 0x{:0X?} 0x{:0X?}",
        emulator.index,
        emulator.memory[i],
        emulator.memory[i + 1],
        emulator.memory[i + 2]
    );
}

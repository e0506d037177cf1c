use chip8::disassembler::{disassemble, Disassembler};
use chip8::emulator::LoadError;

#[test]
fn mnemonics_of_each_class() {
    let d = Disassembler::new();
    let cases: [(u16, &str); 20] = [
        (0x00E0, "clear screen"),
        (0x00EE, "return from subroutine"),
        (0x0123, "unknown"),
        (0x1ABC, "jump to 0xABC"),
        (0x2004, "call subroutine at 0x004"),
        (0x3AFE, "skip next instruction if VA == 0xfe"),
        (0x4B0C, "skip next instruction if VB != 0x0c"),
        (0x5120, "skip next instruction if V1 == V2"),
        (0x6C2D, "set VC to 0x2d"),
        (0x7D01, "add 0x01 to VD"),
        (0x81F1, "set V1 to V1 | VF"),
        (0x8235, "subtract V3 from V2"),
        (0x823E, "shift V2 left"),
        (0x8239, "unknown"),
        (0x9EF0, "skip next instruction if VE != VF"),
        (0xB123, "jump to 0x123 + V0"),
        (0xC3AB, "set V3 to random number & 0xab"),
        (0xD12F, "display at V1, V2, 0xF"),
        (0xE19E, "unknown"),
        (0xF533, "store BCD representation of V5 in memory locations I, I+1, I+2"),
    ];
    for (op, text) in cases {
        assert_eq!(d.disassemble_opcode(op), text);
    }
    assert_eq!(d.disassemble_opcode(0xF20A), "wait for key press and store in V2");
    assert_eq!(d.disassemble_opcode(0xF165), "fill V0 to V1 with memory starting at I");
    assert_eq!(d.disassemble_opcode(0xF1FF), "unknown");
}

#[test]
fn disassembly_is_repeatable() {
    let d = Disassembler::new();
    let mut other = Disassembler::new();
    other.load(&[0xFF; 100]).unwrap();
    for op in [0x0000u16, 0x8AB4, 0xFA29, 0xFFFF] {
        assert_eq!(d.disassemble_opcode(op), d.disassemble_opcode(op));
        assert_eq!(d.disassemble_opcode(op), other.disassemble_opcode(op));
    }
}

#[test]
fn listing_skips_zero_words() {
    let mut image = vec![0u8; 4096];
    image[0x200] = 0x60;
    image[0x201] = 0x12;
    image[0x206] = 0x12;
    image[0x207] = 0x00;
    image[0xFFE] = 0x00;
    image[0xFFF] = 0xE0;
    let lines = disassemble(&image).unwrap();
    assert_eq!(lines.len(), 3);
    assert_eq!((lines[0].offset, lines[0].opcode), (0x000, 0x6012));
    assert_eq!(lines[0].text, "set V0 to 0x12");
    assert_eq!((lines[1].offset, lines[1].opcode), (0x006, 0x1200));
    assert_eq!(lines[1].text, "jump to 0x200");
    assert_eq!((lines[2].offset, lines[2].opcode), (0xDFE, 0x00E0));
}

#[test]
fn listing_refuses_oversized_image() {
    assert_eq!(disassemble(&vec![0u8; 4097]).err(), Some(LoadError::ProgramTooLarge { len: 4097 }));
    assert!(disassemble(&[]).unwrap().is_empty());
}

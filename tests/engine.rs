use chip8::emulator::{Emulator, ExecError, LoadError};
use chip8::{build_image, prep_buffer};

fn machine(program: &[u8]) -> Emulator {
    let image = build_image(program).unwrap();
    let mut emulator = Emulator::new();
    emulator.load(&image).unwrap();
    emulator
}

#[test]
fn jump_sets_pc_for_several_addresses() {
    for nnn in [0x000u16, 0x2A0, 0xFFF] {
        let mut e = machine(&[0x10 | (nnn >> 8) as u8, (nnn & 0xFF) as u8]);
        e.step().unwrap();
        assert_eq!(e.pc, nnn as usize);
    }
}

#[test]
fn bcd_scenario_stores_digits_of_eighteen() {
    let mut e = machine(&[0x60, 0x12, 0xF0, 0x33]);
    e.run(2).unwrap();
    let i = e.index as usize;
    assert_eq!(&e.memory[i..i + 3], &[0, 1, 8]);
}

#[test]
fn bcd_of_255_at_chosen_index() {
    let mut e = machine(&[0x60, 0xFF, 0xA3, 0x00, 0xF0, 0x33]);
    e.run(3).unwrap();
    assert_eq!(&e.memory[0x300..0x303], &[2, 5, 5]);
}

#[test]
fn add_immediate_wraps_and_keeps_flag() {
    let mut e = machine(&[0x71, 0x05]);
    e.registers[1].v = 0xFE;
    e.registers[0xF].v = 0x7;
    e.step().unwrap();
    assert_eq!(e.registers[1].v, 0x03);
    assert_eq!(e.registers[0xF].v, 0x7);
}

#[test]
fn add_registers_sets_carry() {
    let mut e = machine(&[0x81, 0x24, 0x81, 0x24]);
    e.registers[1].v = 200;
    e.registers[2].v = 100;
    e.step().unwrap();
    assert_eq!(e.registers[1].v, 44);
    assert_eq!(e.registers[0xF].v, 1);
    e.registers[2].v = 10;
    e.step().unwrap();
    assert_eq!(e.registers[1].v, 54);
    assert_eq!(e.registers[0xF].v, 0);
}

#[test]
fn subtract_sets_flag_from_values_before() {
    let mut e = machine(&[0x81, 0x25, 0x83, 0x45]);
    e.registers[1].v = 5;
    e.registers[2].v = 3;
    e.registers[3].v = 3;
    e.registers[4].v = 5;
    e.step().unwrap();
    assert_eq!(e.registers[1].v, 2);
    assert_eq!(e.registers[0xF].v, 1);
    e.step().unwrap();
    assert_eq!(e.registers[3].v, 254);
    assert_eq!(e.registers[0xF].v, 0);
}

#[test]
fn reverse_subtract_sets_flag() {
    let mut e = machine(&[0x81, 0x27]);
    e.registers[1].v = 3;
    e.registers[2].v = 5;
    e.step().unwrap();
    assert_eq!(e.registers[1].v, 2);
    assert_eq!(e.registers[0xF].v, 1);
}

#[test]
fn logic_operations() {
    let mut e = machine(&[0x81, 0x21, 0x83, 0x22, 0x85, 0x63, 0x87, 0x80]);
    e.registers[1].v = 0b1010;
    e.registers[2].v = 0b0110;
    e.registers[3].v = 0b1010;
    e.registers[4].v = 0b0110;
    e.registers[5].v = 0b1010;
    e.registers[6].v = 0b0110;
    e.registers[8].v = 0x42;
    e.run(4).unwrap();
    assert_eq!(e.registers[1].v, 0b1110);
    assert_eq!(e.registers[3].v, 0b0010);
    assert_eq!(e.registers[5].v, 0b1100);
    assert_eq!(e.registers[7].v, 0x42);
}

#[test]
fn shifts_copy_vy_with_quirk_on() {
    let mut e = machine(&[0x81, 0x26, 0x83, 0x4E]);
    e.registers[1].v = 0x10;
    e.registers[2].v = 0x05;
    e.registers[3].v = 0x01;
    e.registers[4].v = 0x81;
    e.step().unwrap();
    assert_eq!(e.registers[1].v, 0x02);
    assert_eq!(e.registers[0xF].v, 1);
    e.step().unwrap();
    assert_eq!(e.registers[3].v, 0x02);
    assert_eq!(e.registers[0xF].v, 1);
}

#[test]
fn shifts_in_place_with_quirk_off() {
    let mut e = machine(&[0x81, 0x26, 0x83, 0x4E]);
    e.shift_quirk = false;
    e.registers[1].v = 0x10;
    e.registers[2].v = 0x05;
    e.registers[3].v = 0x01;
    e.registers[4].v = 0x81;
    e.step().unwrap();
    assert_eq!(e.registers[1].v, 0x08);
    assert_eq!(e.registers[0xF].v, 0);
    e.step().unwrap();
    assert_eq!(e.registers[3].v, 0x02);
    assert_eq!(e.registers[0xF].v, 0);
}

#[test]
fn call_and_return() {
    let mut e = machine(&[0x22, 0x06, 0x00, 0x00, 0x00, 0x00, 0x00, 0xEE]);
    e.step().unwrap();
    assert_eq!(e.pc, 0x206);
    assert_eq!(e.stack, vec![0x202]);
    e.step().unwrap();
    assert_eq!(e.pc, 0x202);
    assert!(e.stack.is_empty());
}

#[test]
fn return_with_empty_stack_fails() {
    let mut e = machine(&[0x00, 0xEE]);
    assert_eq!(e.step(), Err(ExecError::StackUnderflow { pc: 0x200 }));
    assert_eq!(e.pc, 0x200);
}

#[test]
fn unknown_opcodes_fail_with_address() {
    let mut e = machine(&[0x60, 0x01, 0xE0, 0x9E]);
    e.step().unwrap();
    assert_eq!(e.step(), Err(ExecError::IllegalInstruction { opcode: 0xE09E, pc: 0x202 }));
    let mut e = machine(&[0x81, 0x28]);
    assert_eq!(e.step(), Err(ExecError::IllegalInstruction { opcode: 0x8128, pc: 0x200 }));
    let mut e = machine(&[0xF1, 0x99]);
    assert_eq!(e.step(), Err(ExecError::IllegalInstruction { opcode: 0xF199, pc: 0x200 }));
    let mut e = machine(&[0x01, 0x23]);
    assert_eq!(e.step(), Err(ExecError::IllegalInstruction { opcode: 0x0123, pc: 0x200 }));
}

#[test]
fn pc_past_memory_fails() {
    let mut e = machine(&[0x1F, 0xFF]);
    e.step().unwrap();
    assert_eq!(e.pc, 0xFFF);
    assert_eq!(e.step(), Err(ExecError::PcOutOfBounds { pc: 0xFFF }));
    e.pc = 4096;
    assert_eq!(e.step(), Err(ExecError::PcOutOfBounds { pc: 4096 }));
}

#[test]
fn index_past_memory_fails() {
    let mut e = machine(&[0xAF, 0xFE, 0xF0, 0x33]);
    e.step().unwrap();
    assert_eq!(e.step(), Err(ExecError::IndexOutOfBounds { index: 0xFFE, pc: 0x202 }));
    let mut e = machine(&[0xAF, 0xFF, 0xD0, 0x02]);
    e.step().unwrap();
    assert_eq!(e.step(), Err(ExecError::IndexOutOfBounds { index: 0xFFF, pc: 0x202 }));
}

#[test]
fn run_stops_at_first_error() {
    let mut e = machine(&[0x60, 0x05, 0x00, 0xEE, 0x61, 0x01]);
    assert_eq!(e.run(3), Err(ExecError::StackUnderflow { pc: 0x202 }));
    assert_eq!(e.registers[0].v, 5);
    assert_eq!(e.registers[1].v, 0);
    assert_eq!(e.pc, 0x202);
}

#[test]
fn run_zero_steps_does_nothing() {
    let mut e = machine(&[0x60, 0x05]);
    e.run(0).unwrap();
    assert_eq!(e.pc, 0x200);
    assert_eq!(e.registers[0].v, 0);
}

#[test]
fn jump_with_offset_and_index_ops() {
    let mut e = machine(&[0xB3, 0x00]);
    e.registers[0].v = 0x10;
    e.step().unwrap();
    assert_eq!(e.pc, 0x310);
    let mut e = machine(&[0xAF, 0xFF, 0xF1, 0x1E, 0xF2, 0x29]);
    e.registers[1].v = 0x02;
    e.registers[2].v = 0x0A;
    e.step().unwrap();
    e.step().unwrap();
    assert_eq!(e.index, 0x1001);
    e.step().unwrap();
    assert_eq!(e.index, 0x50 + 50);
}

#[test]
fn index_add_wraps_at_sixteen_bits() {
    let mut e = machine(&[0xF1, 0x1E]);
    e.index = 0xFFFF;
    e.registers[1].v = 2;
    e.step().unwrap();
    assert_eq!(e.index, 1);
}

#[test]
fn store_and_fill_register_blocks() {
    let mut e = machine(&[0xA3, 0x00, 0xF2, 0x55, 0x60, 0x00, 0x61, 0x00, 0x62, 0x00, 0xF2, 0x65]);
    e.registers[0].v = 7;
    e.registers[1].v = 8;
    e.registers[2].v = 9;
    e.registers[3].v = 10;
    e.run(2).unwrap();
    assert_eq!(&e.memory[0x300..0x304], &[7, 8, 9, 0]);
    e.run(3).unwrap();
    assert_eq!(e.registers[0].v, 0);
    e.step().unwrap();
    assert_eq!(e.registers[0].v, 7);
    assert_eq!(e.registers[1].v, 8);
    assert_eq!(e.registers[2].v, 9);
    assert_eq!(e.registers[3].v, 10);
}

#[test]
fn timers_count_down_to_zero() {
    let mut e = machine(&[0x60, 0x02, 0xF0, 0x15, 0xF0, 0x18, 0xF1, 0x07]);
    e.run(3).unwrap();
    assert_eq!(e.delay_timer, 2);
    assert_eq!(e.sound_timer, 2);
    e.timer_tick();
    assert_eq!(e.delay_timer, 1);
    e.timer_tick();
    e.timer_tick();
    assert_eq!(e.delay_timer, 0);
    assert_eq!(e.sound_timer, 0);
    e.delay_timer = 9;
    e.step().unwrap();
    assert_eq!(e.registers[1].v, 9);
}

#[test]
fn key_wait_repeats_until_a_key_is_held() {
    let mut e = machine(&[0xF3, 0x0A]);
    e.step().unwrap();
    assert_eq!(e.pc, 0x200);
    e.step().unwrap();
    assert_eq!(e.pc, 0x200);
    e.key_buffer.press(0xB);
    e.step().unwrap();
    assert_eq!(e.pc, 0x202);
    assert_eq!(e.registers[3].v, 0xB);
}

#[test]
fn key_release_only_clears_the_held_key() {
    let mut e = Emulator::new();
    e.key_buffer.press(4);
    e.key_buffer.release(5);
    assert_eq!(e.key_buffer.key, Some(4));
    e.key_buffer.release(4);
    assert_eq!(e.key_buffer.key, None);
}

#[test]
fn random_byte_is_masked_first_draw_of_seed_zero() {
    let mut e = machine(&[0xC1, 0x0F, 0xC2, 0xFF]);
    let expected = oorandom::Rand32::new(0).rand_u32() as u8;
    e.run(2).unwrap();
    assert_eq!(e.registers[1].v, expected & 0x0F);
    assert_eq!(e.registers[2].v, expected);
    assert_eq!(e.registers[1].v, 0x0F);
    assert_eq!(e.registers[2].v, 0x3F);
}

#[test]
fn execute_takes_the_random_byte_as_given() {
    let mut e = machine(&[]);
    assert_eq!(e.execute(0xC53C, 0xAA), Ok(false));
    assert_eq!(e.registers[5].v, 0x28);
    assert_eq!(e.pc, 0x202);
}

#[test]
fn draw_glyph_then_collide() {
    // V0 = 0, index at the glyph of 0, draw 5 rows twice.
    let mut e = machine(&[0xA0, 0x50, 0xD0, 0x05, 0xD0, 0x05]);
    e.step().unwrap();
    assert_eq!(e.step(), Ok(true));
    assert_eq!(e.registers[0xF].v, 0);
    assert!(e.graphics.pixel(0, 0));
    assert!(e.graphics.pixel(3, 0));
    assert!(!e.graphics.pixel(4, 0));
    assert!(e.graphics.pixel(0, 1));
    assert!(!e.graphics.pixel(1, 1));
    e.step().unwrap();
    assert_eq!(e.registers[0xF].v, 1);
    for y in 0..32 {
        for x in 0..64 {
            assert!(!e.graphics.pixel(x, y));
        }
    }
}

#[test]
fn draw_wraps_at_right_and_bottom_edges() {
    let mut e = machine(&[0xA3, 0x00, 0xD1, 0x22]);
    e.memory[0x300] = 0xFF;
    e.memory[0x301] = 0x81;
    e.registers[1].v = 60 + 64;
    e.registers[2].v = 31;
    e.run(2).unwrap();
    for x in [60usize, 61, 62, 63, 0, 1, 2, 3] {
        assert!(e.graphics.pixel(x, 31));
    }
    assert!(e.graphics.pixel(60, 0));
    assert!(!e.graphics.pixel(61, 0));
    assert!(e.graphics.pixel(3, 0));
    assert!(!e.graphics.pixel(4, 31));
    assert_eq!(e.registers[0xF].v, 0);
}

#[test]
fn clear_screen_turns_pixels_off() {
    let mut e = machine(&[0xA0, 0x50, 0xD0, 0x05, 0x00, 0xE0]);
    e.run(2).unwrap();
    assert!(e.graphics.pixel(0, 0));
    assert_eq!(e.step(), Ok(true));
    assert!(!e.graphics.pixel(0, 0));
    assert_eq!(e.pc, 0x206);
}

#[test]
fn oversized_program_is_refused_before_running() {
    let program = vec![0x12u8; 4096 - 0x200 + 1];
    assert_eq!(build_image(&program), Err(LoadError::ProgramTooLarge { len: 3585 }));
    let fits = vec![0x12u8; 4096 - 0x200];
    let image = build_image(&fits).unwrap();
    assert_eq!(image.len(), 4096);
    assert_eq!(image[4095], 0x12);
}

#[test]
fn engine_load_refuses_more_than_memory() {
    let mut e = Emulator::new();
    assert_eq!(e.load(&vec![1u8; 4097]), Err(LoadError::ProgramTooLarge { len: 4097 }));
    assert_eq!(e.memory[0], 0);
    e.load(&[9, 8]).unwrap();
    assert_eq!(&e.memory[0..3], &[9, 8, 0]);
}

#[test]
fn image_has_font_and_program() {
    let image = build_image(&[0xAB, 0xCD]).unwrap();
    assert_eq!(&image[0x50..0x55], &[0xF0, 0x90, 0x90, 0x90, 0xF0]);
    assert_eq!(&image[0x9B..0xA0], &[0xF0, 0x80, 0xF0, 0x80, 0x80]);
    assert_eq!(image[0x4F], 0);
    assert_eq!(image[0xA0], 0);
    assert_eq!(&image[0x200..0x203], &[0xAB, 0xCD, 0]);
}

#[test]
fn prep_buffer_moves_program_up() {
    let mut buffer = vec![7u8; 0x204];
    buffer[0] = 1;
    buffer[1] = 2;
    prep_buffer(&mut buffer);
    assert_eq!(buffer.len(), 0x204);
    assert_eq!(&buffer[0x200..0x204], &[1, 2, 7, 7]);
    assert_eq!(buffer[0], 0);
    assert_eq!(buffer[0x50], 0xF0);
}

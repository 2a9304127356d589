use interp::{decode, execute, execute_with, fetch, Emulator, Fault, Instruction, FONT};

const NO_KEYS: [bool; 16] = [false; 16];

fn machine_with(program: &[u8]) -> Emulator {
    let mut emu = Emulator::init();
    assert_eq!(emu.loadROM(Ok(program.to_vec())), Ok(()));
    emu
}

fn cycle(emu: &mut Emulator, keys: &[bool; 16]) -> Result<(), Fault> {
    let word = fetch(emu);
    execute(emu, decode(word), keys)
}

fn run_word(emu: &mut Emulator, word: u16) -> Result<(), Fault> {
    execute(emu, decode(word), &NO_KEYS)
}

fn lit_pixels(emu: &Emulator) -> Vec<u16> {
    (0..2048u16).filter(|pixel| emu.readPixel(*pixel) == 1).collect()
}

#[test]
fn fetch_reads_the_word_and_advances() {
    let mut emu = machine_with(&[0x12, 0x34, 0xAB, 0xCD]);
    let before = emu.clone();
    assert_eq!(fetch(&mut emu), 0x1234);
    assert_eq!(emu.pc, 0x202);
    assert_eq!(fetch(&mut emu), 0xABCD);
    assert_eq!(emu.pc, 0x204);
    let mut expected = before;
    expected.pc = 0x204;
    assert_eq!(emu, expected);
}

#[test]
fn fetch_wraps_at_the_end_of_memory_and_of_the_counter() {
    let mut emu = Emulator::init();
    emu.putWord(0xFFF, 0xA1);
    emu.pc = 0xFFF;
    assert_eq!(fetch(&mut emu), 0xA1F0);
    assert_eq!(emu.pc, 0x1001);
    emu.pc = 0xFFFF;
    assert_eq!(fetch(&mut emu), 0xA1F0);
    assert_eq!(emu.pc, 1);
    emu.pc = 0xFFFE;
    fetch(&mut emu);
    assert_eq!(emu.pc, 0);
}

#[test]
fn clear_display_scenario() {
    let mut emu = machine_with(&[0x00, 0xE0]);
    for pixel in [0u16, 100, 2047] {
        emu.writePixel(pixel, 1);
    }
    assert_eq!(cycle(&mut emu, &NO_KEYS), Ok(()));
    assert_eq!(emu.disp, [0u8; 256]);
    assert!(lit_pixels(&emu).is_empty());
    assert_eq!(emu.pc, 0x202);
}

#[test]
fn load_then_add_immediate_scenario() {
    let mut emu = machine_with(&[0x60, 0x05, 0x70, 0x03]);
    assert_eq!(cycle(&mut emu, &NO_KEYS), Ok(()));
    assert_eq!(emu.reg[0], 5);
    assert_eq!(emu.pc, 0x202);
    assert_eq!(cycle(&mut emu, &NO_KEYS), Ok(()));
    assert_eq!(emu.reg[0], 8);
    assert_eq!(emu.pc, 0x204);
}

#[test]
fn set_index_scenario() {
    let mut emu = machine_with(&[0xA2, 0x0A]);
    assert_eq!(cycle(&mut emu, &NO_KEYS), Ok(()));
    assert_eq!(emu.idx, 0x20A);
    assert_eq!(emu.pc, 0x202);
}

#[test]
fn call_then_return_scenario() {
    let mut emu = machine_with(&[0x23, 0x00, 0x60, 0x01]);
    emu.putDWord(0x300, 0x6A07);
    emu.putDWord(0x302, 0x00EE);
    assert_eq!(cycle(&mut emu, &NO_KEYS), Ok(()));
    assert_eq!(emu.pc, 0x300);
    assert_eq!(emu.stack.peak(), Some(0x202));
    assert_eq!(cycle(&mut emu, &NO_KEYS), Ok(()));
    assert_eq!(emu.reg[0xA], 7);
    assert_eq!(cycle(&mut emu, &NO_KEYS), Ok(()));
    assert_eq!(emu.pc, 0x202);
    assert_eq!(emu.stack.peak(), None);
    assert_eq!(cycle(&mut emu, &NO_KEYS), Ok(()));
    assert_eq!(emu.reg[0], 1);
}

#[test]
fn nested_calls_return_in_reverse() {
    let mut emu = Emulator::init();
    emu.pc = 0x202;
    assert_eq!(run_word(&mut emu, 0x2400), Ok(()));
    emu.pc = 0x406;
    assert_eq!(run_word(&mut emu, 0x2600), Ok(()));
    assert_eq!(emu.pc, 0x600);
    assert_eq!(run_word(&mut emu, 0x00EE), Ok(()));
    assert_eq!(emu.pc, 0x406);
    assert_eq!(run_word(&mut emu, 0x00EE), Ok(()));
    assert_eq!(emu.pc, 0x202);
    assert_eq!(run_word(&mut emu, 0x00EE), Err(Fault::StackUnderflow));
}

#[test]
fn return_on_empty_stack_is_a_fault() {
    let mut emu = machine_with(&[0x00, 0xEE]);
    emu.reg[4] = 4;
    let word = fetch(&mut emu);
    let before = emu.clone();
    assert_eq!(execute(&mut emu, decode(word), &NO_KEYS), Err(Fault::StackUnderflow));
    assert_eq!(emu, before);
    assert_eq!(emu.pc, 0x202);
}

#[test]
fn unknown_system_operand_is_a_fault() {
    let mut emu = Emulator::init();
    let before = emu.clone();
    assert_eq!(run_word(&mut emu, 0x0123), Err(Fault::UnhandledOperand));
    assert_eq!(run_word(&mut emu, 0x0000), Err(Fault::UnhandledOperand));
    assert_eq!(run_word(&mut emu, 0x00E1), Err(Fault::UnhandledOperand));
    assert_eq!(emu, before);
}

#[test]
fn jump_sets_the_program_counter() {
    let mut emu = Emulator::init();
    let mut expected = emu.clone();
    expected.pc = 0xABC;
    assert_eq!(run_word(&mut emu, 0x1ABC), Ok(()));
    assert_eq!(emu, expected);
}

#[test]
fn call_pushes_the_program_counter() {
    let mut emu = Emulator::init();
    emu.pc = 0x456;
    assert_eq!(run_word(&mut emu, 0x2ABC), Ok(()));
    assert_eq!(emu.pc, 0xABC);
    assert_eq!(emu.stack.pop(), Some(0x456));
    assert_eq!(emu.stack.pop(), None);
}

#[test]
fn skip_if_register_equals_byte() {
    let mut emu = Emulator::init();
    emu.reg[3] = 0x42;
    emu.pc = 0x202;
    assert_eq!(run_word(&mut emu, 0x3342), Ok(()));
    assert_eq!(emu.pc, 0x204);
    assert_eq!(run_word(&mut emu, 0x3343), Ok(()));
    assert_eq!(emu.pc, 0x204);
}

#[test]
fn skip_if_register_differs_from_byte() {
    let mut emu = Emulator::init();
    emu.reg[3] = 0x42;
    emu.pc = 0x202;
    assert_eq!(run_word(&mut emu, 0x4342), Ok(()));
    assert_eq!(emu.pc, 0x202);
    assert_eq!(run_word(&mut emu, 0x4343), Ok(()));
    assert_eq!(emu.pc, 0x204);
}

#[test]
fn skip_if_registers_are_equal() {
    let mut emu = Emulator::init();
    emu.reg[1] = 9;
    emu.reg[2] = 9;
    emu.reg[3] = 8;
    emu.pc = 0x202;
    assert_eq!(run_word(&mut emu, 0x5120), Ok(()));
    assert_eq!(emu.pc, 0x204);
    assert_eq!(run_word(&mut emu, 0x5130), Ok(()));
    assert_eq!(emu.pc, 0x204);
}

#[test]
fn skip_if_registers_differ() {
    let mut emu = Emulator::init();
    emu.reg[1] = 9;
    emu.reg[2] = 9;
    emu.reg[3] = 8;
    emu.pc = 0x202;
    assert_eq!(run_word(&mut emu, 0x9120), Ok(()));
    assert_eq!(emu.pc, 0x202);
    assert_eq!(run_word(&mut emu, 0x9130), Ok(()));
    assert_eq!(emu.pc, 0x204);
}

#[test]
fn skip_wraps_the_program_counter() {
    let mut emu = Emulator::init();
    emu.pc = 0xFFFF;
    assert_eq!(run_word(&mut emu, 0x3000), Ok(()));
    assert_eq!(emu.pc, 1);
}

#[test]
fn load_immediate_sets_the_register() {
    let mut emu = Emulator::init();
    let mut expected = emu.clone();
    expected.reg[0xF] = 0xEE;
    assert_eq!(run_word(&mut emu, 0x6FEE), Ok(()));
    assert_eq!(emu, expected);
}

#[test]
fn add_immediate_wraps_without_a_flag() {
    let mut emu = Emulator::init();
    emu.reg[2] = 0xFF;
    emu.reg[0xF] = 0x33;
    assert_eq!(run_word(&mut emu, 0x7202), Ok(()));
    assert_eq!(emu.reg[2], 0x01);
    assert_eq!(emu.reg[0xF], 0x33);
    assert_eq!(run_word(&mut emu, 0x72FF), Ok(()));
    assert_eq!(emu.reg[2], 0x00);
    assert_eq!(emu.reg[0xF], 0x33);
}

#[test]
fn copy_leaves_the_flag() {
    let mut emu = Emulator::init();
    emu.reg[1] = 0b1100;
    emu.reg[2] = 0b1010;
    emu.reg[0xF] = 7;
    let mut expected = emu.clone();
    expected.reg[1] = 0b1010;
    assert_eq!(run_word(&mut emu, 0x8120), Ok(()));
    assert_eq!(emu, expected);
    assert_eq!(run_word(&mut emu, 0x8F10), Ok(()));
    assert_eq!(emu.reg[0xF], 0b1010);
}

#[test]
fn bitwise_operations_clear_the_flag() {
    let mut emu = Emulator::init();
    emu.reg[1] = 0b1100;
    emu.reg[2] = 0b1010;
    emu.reg[0xF] = 7;
    assert_eq!(run_word(&mut emu, 0x8121), Ok(()));
    assert_eq!(emu.reg[1], 0b1110);
    assert_eq!(emu.reg[0xF], 0);
    emu.reg[1] = 0b1100;
    emu.reg[0xF] = 7;
    assert_eq!(run_word(&mut emu, 0x8122), Ok(()));
    assert_eq!(emu.reg[1], 0b1000);
    assert_eq!(emu.reg[0xF], 0);
    emu.reg[1] = 0b1100;
    emu.reg[0xF] = 7;
    assert_eq!(run_word(&mut emu, 0x8123), Ok(()));
    assert_eq!(emu.reg[1], 0b0110);
    assert_eq!(emu.reg[0xF], 0);
    assert_eq!(emu.reg[2], 0b1010);
    emu.reg[0xF] = 0xFF;
    assert_eq!(run_word(&mut emu, 0x8F21), Ok(()));
    assert_eq!(emu.reg[0xF], 0);
}

#[test]
fn add_registers_sets_the_carry() {
    let mut emu = Emulator::init();
    emu.reg[1] = 200;
    emu.reg[2] = 100;
    assert_eq!(run_word(&mut emu, 0x8124), Ok(()));
    assert_eq!(emu.reg[1], 44);
    assert_eq!(emu.reg[0xF], 1);
    emu.reg[1] = 20;
    assert_eq!(run_word(&mut emu, 0x8124), Ok(()));
    assert_eq!(emu.reg[1], 120);
    assert_eq!(emu.reg[0xF], 0);
    emu.reg[1] = 155;
    assert_eq!(run_word(&mut emu, 0x8124), Ok(()));
    assert_eq!(emu.reg[1], 255);
    assert_eq!(emu.reg[0xF], 0);
    emu.reg[1] = 156;
    assert_eq!(run_word(&mut emu, 0x8124), Ok(()));
    assert_eq!(emu.reg[1], 0);
    assert_eq!(emu.reg[0xF], 1);
}

#[test]
fn subtract_sets_the_flag_where_the_minuend_is_greater() {
    let mut emu = Emulator::init();
    emu.reg[1] = 10;
    emu.reg[2] = 3;
    assert_eq!(run_word(&mut emu, 0x8125), Ok(()));
    assert_eq!(emu.reg[1], 7);
    assert_eq!(emu.reg[0xF], 1);
    emu.reg[1] = 3;
    emu.reg[2] = 10;
    assert_eq!(run_word(&mut emu, 0x8125), Ok(()));
    assert_eq!(emu.reg[1], 249);
    assert_eq!(emu.reg[0xF], 0);
    emu.reg[1] = 10;
    emu.reg[0xF] = 1;
    assert_eq!(run_word(&mut emu, 0x8125), Ok(()));
    assert_eq!(emu.reg[1], 0);
    assert_eq!(emu.reg[0xF], 0);
}

#[test]
fn reverse_subtract_sets_the_flag_where_the_minuend_is_greater() {
    let mut emu = Emulator::init();
    emu.reg[1] = 3;
    emu.reg[2] = 10;
    assert_eq!(run_word(&mut emu, 0x8127), Ok(()));
    assert_eq!(emu.reg[1], 7);
    assert_eq!(emu.reg[2], 10);
    assert_eq!(emu.reg[0xF], 1);
    emu.reg[1] = 10;
    emu.reg[2] = 3;
    assert_eq!(run_word(&mut emu, 0x8127), Ok(()));
    assert_eq!(emu.reg[1], 249);
    assert_eq!(emu.reg[0xF], 0);
    emu.reg[1] = 3;
    emu.reg[0xF] = 1;
    assert_eq!(run_word(&mut emu, 0x8127), Ok(()));
    assert_eq!(emu.reg[1], 0);
    assert_eq!(emu.reg[0xF], 0);
}

#[test]
fn shift_right_captures_the_low_bit() {
    let mut emu = Emulator::init();
    emu.reg[1] = 0b0000_0101;
    emu.reg[2] = 0xFF;
    assert_eq!(run_word(&mut emu, 0x8126), Ok(()));
    assert_eq!(emu.reg[1], 0b0000_0010);
    assert_eq!(emu.reg[2], 0xFF);
    assert_eq!(emu.reg[0xF], 1);
    assert_eq!(run_word(&mut emu, 0x8126), Ok(()));
    assert_eq!(emu.reg[1], 0b0000_0001);
    assert_eq!(emu.reg[0xF], 0);
}

#[test]
fn shift_left_captures_the_high_bit() {
    let mut emu = Emulator::init();
    emu.reg[1] = 0b1100_0001;
    emu.reg[2] = 0xFF;
    assert_eq!(run_word(&mut emu, 0x812E), Ok(()));
    assert_eq!(emu.reg[1], 0b1000_0010);
    assert_eq!(emu.reg[2], 0xFF);
    assert_eq!(emu.reg[0xF], 1);
    emu.reg[1] = 0b0100_0001;
    assert_eq!(run_word(&mut emu, 0x812E), Ok(()));
    assert_eq!(emu.reg[1], 0b1000_0010);
    assert_eq!(emu.reg[0xF], 0);
}

#[test]
fn flag_is_written_last_where_it_is_the_destination() {
    let mut emu = Emulator::init();
    emu.reg[0xF] = 200;
    emu.reg[2] = 100;
    assert_eq!(run_word(&mut emu, 0x8F24), Ok(()));
    assert_eq!(emu.reg[0xF], 1);
    emu.reg[0xF] = 20;
    assert_eq!(run_word(&mut emu, 0x8F24), Ok(()));
    assert_eq!(emu.reg[0xF], 0);
    emu.reg[0xF] = 0b11;
    assert_eq!(run_word(&mut emu, 0x8F26), Ok(()));
    assert_eq!(emu.reg[0xF], 1);
    emu.reg[0xF] = 0x81;
    assert_eq!(run_word(&mut emu, 0x8F2E), Ok(()));
    assert_eq!(emu.reg[0xF], 1);
    emu.reg[0xF] = 9;
    emu.reg[2] = 5;
    assert_eq!(run_word(&mut emu, 0x8F25), Ok(()));
    assert_eq!(emu.reg[0xF], 1);
    assert_eq!(run_word(&mut emu, 0x8F27), Ok(()));
    assert_eq!(emu.reg[0xF], 1);
}

#[test]
fn flag_as_source_is_read_before_it_is_written() {
    let mut emu = Emulator::init();
    emu.reg[1] = 250;
    emu.reg[0xF] = 10;
    assert_eq!(run_word(&mut emu, 0x81F4), Ok(()));
    assert_eq!(emu.reg[1], 4);
    assert_eq!(emu.reg[0xF], 1);
}

#[test]
fn unknown_arithmetic_nibble_is_a_fault() {
    let mut emu = Emulator::init();
    emu.reg[1] = 1;
    emu.reg[2] = 2;
    let before = emu.clone();
    for nibble in [0x8u16, 0x9, 0xA, 0xB, 0xC, 0xD, 0xF] {
        assert_eq!(run_word(&mut emu, 0x8120 | nibble), Err(Fault::UnhandledOperand));
        assert_eq!(emu, before);
    }
}

#[test]
fn jump_with_offset_adds_register_zero() {
    let mut emu = Emulator::init();
    emu.reg[0] = 0x10;
    assert_eq!(run_word(&mut emu, 0xB300), Ok(()));
    assert_eq!(emu.pc, 0x310);
    emu.reg[0] = 0xFF;
    assert_eq!(run_word(&mut emu, 0xBFFF), Ok(()));
    assert_eq!(emu.pc, 0x10FE);
}

#[test]
fn random_byte_is_masked_by_the_immediate() {
    let mut emu = Emulator::init();
    let mut expected = emu.clone();
    expected.reg[3] = 0xA0;
    let instr = decode(0xC3F0);
    assert_eq!(execute_with(&mut emu, instr, &NO_KEYS, 0xAB), Ok(()));
    assert_eq!(emu, expected);
    assert_eq!(execute_with(&mut emu, decode(0xC300), &NO_KEYS, 0xFF), Ok(()));
    assert_eq!(emu.reg[3], 0);
    assert_eq!(execute_with(&mut emu, decode(0xC3FF), &NO_KEYS, 0x5A), Ok(()));
    assert_eq!(emu.reg[3], 0x5A);
}

#[test]
fn drawn_random_bytes_stay_within_the_mask() {
    let mut emu = Emulator::init();
    emu.reg[5] = 0xFF;
    let mut seen = [false; 256];
    for _ in 0..2000 {
        let mut expected = emu.clone();
        assert_eq!(run_word(&mut emu, 0xC53C), Ok(()));
        assert_eq!(emu.reg[5] & !0x3C, 0);
        seen[emu.reg[5] as usize] = true;
        expected.reg[5] = emu.reg[5];
        assert_eq!(emu, expected);
    }
    assert!(seen.iter().filter(|hit| **hit).count() > 1);
}

#[test]
fn random_byte_is_ignored_by_other_instructions() {
    let mut first = Emulator::init();
    let mut second = Emulator::init();
    for word in [0x6A12u16, 0x7A01, 0x8AB4, 0xA123, 0xFA1E, 0xD005] {
        assert_eq!(execute_with(&mut first, decode(word), &NO_KEYS, 0x00), Ok(()));
        assert_eq!(execute_with(&mut second, decode(word), &NO_KEYS, 0xFF), Ok(()));
        assert_eq!(first, second);
    }
}

#[test]
fn sprite_is_drawn_at_the_registers_coordinates() {
    let mut emu = Emulator::init();
    emu.idx = 0;
    emu.reg[1] = 2;
    emu.reg[2] = 1;
    emu.reg[0xF] = 9;
    assert_eq!(run_word(&mut emu, 0xD125), Ok(()));
    let mut expected: Vec<u16> = Vec::new();
    for row in 0..5u16 {
        for column in 0..8u16 {
            if (FONT[row as usize] >> (7 - column)) & 1 == 1 {
                expected.push((1 + row) * 64 + 2 + column);
            }
        }
    }
    assert_eq!(lit_pixels(&emu), expected);
    assert_eq!(
        expected,
        vec![66, 67, 68, 69, 130, 133, 194, 197, 258, 261, 322, 323, 324, 325]
    );
    assert_eq!(emu.reg[0xF], 0);
    assert_eq!(emu.idx, 0);
}

#[test]
fn drawing_over_lit_pixels_erases_and_sets_the_flag() {
    let mut emu = Emulator::init();
    emu.idx = 5;
    emu.reg[0] = 10;
    emu.reg[1] = 10;
    assert_eq!(run_word(&mut emu, 0xD015), Ok(()));
    assert_eq!(emu.reg[0xF], 0);
    assert!(!lit_pixels(&emu).is_empty());
    assert_eq!(run_word(&mut emu, 0xD015), Ok(()));
    assert_eq!(emu.reg[0xF], 1);
    assert!(lit_pixels(&emu).is_empty());
    assert_eq!(run_word(&mut emu, 0xD015), Ok(()));
    assert_eq!(emu.reg[0xF], 0);
}

#[test]
fn flag_is_set_by_a_single_erased_pixel() {
    let mut emu = Emulator::init();
    emu.putWord(0x300, 0b1000_0000);
    emu.putWord(0x301, 0b0000_0001);
    emu.idx = 0x300;
    emu.writePixel(64 + 7, 1);
    assert_eq!(run_word(&mut emu, 0xD002), Ok(()));
    assert_eq!(emu.reg[0xF], 1);
    assert_eq!(lit_pixels(&emu), vec![0]);
}

#[test]
fn lit_pixel_under_a_clear_bit_is_no_collision() {
    let mut emu = Emulator::init();
    emu.putWord(0x300, 0b1000_0000);
    emu.idx = 0x300;
    emu.writePixel(1, 1);
    assert_eq!(run_word(&mut emu, 0xD001), Ok(()));
    assert_eq!(emu.reg[0xF], 0);
    assert_eq!(lit_pixels(&emu), vec![0, 1]);
}

#[test]
fn sprite_of_no_rows_draws_nothing_and_clears_the_flag() {
    let mut emu = Emulator::init();
    emu.writePixel(0, 1);
    emu.reg[0xF] = 1;
    let mut expected = emu.clone();
    expected.reg[0xF] = 0;
    assert_eq!(run_word(&mut emu, 0xD000), Ok(()));
    assert_eq!(emu, expected);
}

#[test]
fn sprite_is_cut_off_at_the_bottom() {
    let mut emu = Emulator::init();
    for offset in 0..4u16 {
        emu.putWord(0x300 + offset, 0xFF);
    }
    emu.idx = 0x300;
    emu.reg[0] = 0;
    emu.reg[1] = 30;
    assert_eq!(run_word(&mut emu, 0xD014), Ok(()));
    let expected: Vec<u16> = (30 * 64..30 * 64 + 8).chain(31 * 64..31 * 64 + 8).collect();
    assert_eq!(lit_pixels(&emu), expected);
    assert_eq!(emu.reg[0xF], 0);
}

#[test]
fn sprite_coordinates_wrap_around_the_display() {
    let mut emu = Emulator::init();
    emu.putWord(0x300, 0xFF);
    emu.putWord(0x301, 0xFF);
    emu.idx = 0x300;
    emu.reg[0] = 64 + 3;
    emu.reg[1] = 32 + 1;
    assert_eq!(run_word(&mut emu, 0xD012), Ok(()));
    let expected: Vec<u16> = (64 + 3..64 + 11).chain(128 + 3..128 + 11).collect();
    assert_eq!(lit_pixels(&emu), expected);
    let mut other = Emulator::init();
    other.putWord(0x300, 0xFF);
    other.putWord(0x301, 0xFF);
    other.idx = 0x300;
    other.reg[0] = 255;
    other.reg[1] = 255;
    assert_eq!(run_word(&mut other, 0xD012), Ok(()));
    let wrapped: Vec<u16> = (0..7u16).chain(31 * 64 + 63..31 * 64 + 64).collect();
    assert_eq!(lit_pixels(&other), wrapped);
}

#[test]
fn sprite_row_continues_in_linear_order_past_the_right_edge() {
    let mut emu = Emulator::init();
    emu.putWord(0x300, 0xFF);
    emu.idx = 0x300;
    emu.reg[0] = 60;
    emu.reg[1] = 3;
    assert_eq!(run_word(&mut emu, 0xD011), Ok(()));
    let expected: Vec<u16> = (3 * 64 + 60..3 * 64 + 68).collect();
    assert_eq!(lit_pixels(&emu), expected);
}

#[test]
fn sprite_bytes_are_read_modulo_the_memory_size() {
    let mut emu = Emulator::init();
    emu.putWord(0xFFF, 0x80);
    emu.idx = 0xFFF;
    emu.reg[0] = 0;
    emu.reg[1] = 0;
    assert_eq!(run_word(&mut emu, 0xD012), Ok(()));
    let expected: Vec<u16> = vec![0, 64, 65, 66, 67];
    assert_eq!(lit_pixels(&emu), expected);
}

#[test]
fn draw_touches_only_the_display_and_the_flag() {
    let mut emu = Emulator::init();
    emu.idx = 0;
    emu.reg[3] = 1;
    emu.pc = 0x222;
    emu.stack.push(5);
    let before = emu.clone();
    assert_eq!(run_word(&mut emu, 0xD335), Ok(()));
    let mut expected = before;
    expected.disp = emu.disp;
    assert_eq!(emu, expected);
}

#[test]
fn skip_if_key_is_held() {
    let mut keys = [false; 16];
    keys[0xB] = true;
    let mut emu = Emulator::init();
    emu.reg[1] = 0xB;
    emu.reg[2] = 0x3;
    emu.pc = 0x202;
    assert_eq!(execute(&mut emu, decode(0xE19E), &keys), Ok(()));
    assert_eq!(emu.pc, 0x204);
    assert_eq!(execute(&mut emu, decode(0xE29E), &keys), Ok(()));
    assert_eq!(emu.pc, 0x204);
}

#[test]
fn skip_if_key_is_not_held() {
    let mut keys = [false; 16];
    keys[0xB] = true;
    let mut emu = Emulator::init();
    emu.reg[1] = 0xB;
    emu.reg[2] = 0x3;
    emu.pc = 0x202;
    assert_eq!(execute(&mut emu, decode(0xE1A1), &keys), Ok(()));
    assert_eq!(emu.pc, 0x202);
    assert_eq!(execute(&mut emu, decode(0xE2A1), &keys), Ok(()));
    assert_eq!(emu.pc, 0x204);
}

#[test]
fn key_is_selected_by_the_low_four_bits() {
    let mut keys = [false; 16];
    keys[0x2] = true;
    let mut emu = Emulator::init();
    emu.reg[1] = 0xF2;
    emu.pc = 0x202;
    assert_eq!(execute(&mut emu, decode(0xE19E), &keys), Ok(()));
    assert_eq!(emu.pc, 0x204);
    assert_eq!(execute(&mut emu, decode(0xE1A1), &keys), Ok(()));
    assert_eq!(emu.pc, 0x204);
}

#[test]
fn unknown_key_operation_is_a_fault() {
    let mut emu = Emulator::init();
    let before = emu.clone();
    assert_eq!(run_word(&mut emu, 0xE100), Err(Fault::UnhandledOperand));
    assert_eq!(run_word(&mut emu, 0xE19F), Err(Fault::UnhandledOperand));
    assert_eq!(emu, before);
}

#[test]
fn delay_timer_is_read_and_set() {
    let mut emu = Emulator::init();
    emu.reg[4] = 77;
    assert_eq!(run_word(&mut emu, 0xF415), Ok(()));
    assert_eq!(emu.delay, 77);
    assert_eq!(emu.sound, 0);
    assert_eq!(run_word(&mut emu, 0xF907), Ok(()));
    assert_eq!(emu.reg[9], 77);
}

#[test]
fn sound_timer_is_set() {
    let mut emu = Emulator::init();
    emu.reg[4] = 31;
    assert_eq!(run_word(&mut emu, 0xF418), Ok(()));
    assert_eq!(emu.sound, 31);
    assert_eq!(emu.delay, 0);
}

#[test]
fn wait_for_key_repeats_while_no_key_is_held() {
    let mut emu = machine_with(&[0xF3, 0x0A, 0x60, 0x01]);
    assert_eq!(cycle(&mut emu, &NO_KEYS), Ok(()));
    assert_eq!(emu.pc, 0x200);
    assert_eq!(cycle(&mut emu, &NO_KEYS), Ok(()));
    assert_eq!(emu.pc, 0x200);
    assert_eq!(emu.reg[3], 0);
    let mut keys = [false; 16];
    keys[0xC] = true;
    keys[0x5] = true;
    assert_eq!(cycle(&mut emu, &keys), Ok(()));
    assert_eq!(emu.pc, 0x202);
    assert_eq!(emu.reg[3], 0x5);
}

#[test]
fn wait_for_key_steps_back_across_zero() {
    let mut emu = Emulator::init();
    emu.pc = 1;
    assert_eq!(run_word(&mut emu, 0xF00A), Ok(()));
    assert_eq!(emu.pc, 0xFFFF);
}

#[test]
fn wait_for_key_takes_key_zero() {
    let mut keys = [true; 16];
    let mut emu = Emulator::init();
    emu.reg[7] = 9;
    emu.pc = 0x202;
    assert_eq!(execute(&mut emu, decode(0xF70A), &keys), Ok(()));
    assert_eq!(emu.reg[7], 0);
    assert_eq!(emu.pc, 0x202);
    keys[0] = false;
    assert_eq!(execute(&mut emu, decode(0xF70A), &keys), Ok(()));
    assert_eq!(emu.reg[7], 1);
}

#[test]
fn register_is_added_to_the_index() {
    let mut emu = Emulator::init();
    emu.idx = 0x100;
    emu.reg[2] = 0x23;
    assert_eq!(run_word(&mut emu, 0xF21E), Ok(()));
    assert_eq!(emu.idx, 0x123);
    emu.idx = 0xFFFF;
    emu.reg[2] = 2;
    assert_eq!(run_word(&mut emu, 0xF21E), Ok(()));
    assert_eq!(emu.idx, 1);
}

#[test]
fn index_is_pointed_at_a_glyph() {
    let mut emu = Emulator::init();
    emu.reg[2] = 0xA;
    assert_eq!(run_word(&mut emu, 0xF229), Ok(()));
    assert_eq!(emu.idx, 50);
    assert_eq!(emu.getWord(emu.idx), FONT[50]);
    emu.reg[2] = 0;
    assert_eq!(run_word(&mut emu, 0xF229), Ok(()));
    assert_eq!(emu.idx, 0);
    emu.reg[2] = 255;
    assert_eq!(run_word(&mut emu, 0xF229), Ok(()));
    assert_eq!(emu.idx, 1275);
}

#[test]
fn decimal_digits_are_stored_at_the_index() {
    let mut emu = Emulator::init();
    emu.idx = 0x400;
    emu.reg[6] = 254;
    assert_eq!(run_word(&mut emu, 0xF633), Ok(()));
    assert_eq!(&emu.mem[0x400..0x403], &[2, 5, 4]);
    assert_eq!(emu.idx, 0x400);
    emu.reg[6] = 7;
    assert_eq!(run_word(&mut emu, 0xF633), Ok(()));
    assert_eq!(&emu.mem[0x400..0x403], &[0, 0, 7]);
    emu.reg[6] = 100;
    emu.idx = 0xFFF;
    assert_eq!(run_word(&mut emu, 0xF633), Ok(()));
    assert_eq!(emu.mem[0xFFF], 1);
    assert_eq!(emu.mem[0], 0);
    assert_eq!(emu.mem[1], 0);
}

#[test]
fn registers_are_stored_up_to_and_with_the_last() {
    let mut emu = Emulator::init();
    for r in 0..16usize {
        emu.reg[r] = 0x10 + r as u8;
    }
    emu.idx = 0x500;
    let before = emu.clone();
    assert_eq!(run_word(&mut emu, 0xF355), Ok(()));
    let mut expected = before;
    expected.mem[0x500] = 0x10;
    expected.mem[0x501] = 0x11;
    expected.mem[0x502] = 0x12;
    expected.mem[0x503] = 0x13;
    assert_eq!(emu, expected);
    assert_eq!(emu.mem[0x504], 0);
    assert_eq!(run_word(&mut emu, 0xF055), Ok(()));
    assert_eq!(emu, expected);
    assert_eq!(run_word(&mut emu, 0xFF55), Ok(()));
    for r in 0..16usize {
        assert_eq!(emu.mem[0x500 + r], 0x10 + r as u8);
    }
    assert_eq!(emu.mem[0x510], 0);
}

#[test]
fn registers_are_stored_across_the_end_of_memory() {
    let mut emu = Emulator::init();
    emu.reg[0] = 0xAA;
    emu.reg[1] = 0xBB;
    emu.reg[2] = 0xCC;
    emu.idx = 0xFFE;
    assert_eq!(run_word(&mut emu, 0xF255), Ok(()));
    assert_eq!(emu.mem[0xFFE], 0xAA);
    assert_eq!(emu.mem[0xFFF], 0xBB);
    assert_eq!(emu.mem[0x000], 0xCC);
    assert_eq!(emu.mem[0x001], FONT[1]);
}

#[test]
fn registers_are_loaded_up_to_and_with_the_last() {
    let mut emu = Emulator::init();
    for offset in 0..16u16 {
        emu.putWord(0x600 + offset, 0x80 + offset as u8);
    }
    emu.idx = 0x600;
    emu.reg[3] = 0x33;
    let before = emu.clone();
    assert_eq!(run_word(&mut emu, 0xF265), Ok(()));
    let mut expected = before;
    expected.reg[0] = 0x80;
    expected.reg[1] = 0x81;
    expected.reg[2] = 0x82;
    assert_eq!(emu, expected);
    assert_eq!(emu.reg[3], 0x33);
    assert_eq!(run_word(&mut emu, 0xFF65), Ok(()));
    for r in 0..16usize {
        assert_eq!(emu.reg[r], 0x80 + r as u8);
    }
}

#[test]
fn unknown_misc_operation_is_a_fault() {
    let mut emu = Emulator::init();
    emu.reg[1] = 5;
    let before = emu.clone();
    for byte in [0x00u16, 0x08, 0x1F, 0x30, 0x56, 0x66, 0xFF] {
        assert_eq!(run_word(&mut emu, 0xF100 | byte), Err(Fault::UnhandledOperand));
        assert_eq!(emu, before);
    }
}

fn shaped(opcode: u8, op1: Option<u16>, op2: Option<u16>, op3: Option<u16>) -> Instruction {
    Instruction { opcode, op1, op2, op3 }
}

fn assert_fault_leaves_machine(instr: Instruction, fault: Fault) {
    let mut emu = Emulator::init();
    emu.reg[1] = 5;
    emu.stack.push(0x222);
    let before = emu.clone();
    assert_eq!(execute(&mut emu, instr, &NO_KEYS), Err(fault));
    assert_eq!(emu, before);
    assert_eq!(execute_with(&mut emu, instr, &NO_KEYS, 0x5A), Err(fault));
    assert_eq!(emu, before);
}

#[test]
fn unknown_family_is_a_decode_fault() {
    assert_fault_leaves_machine(shaped(0x10, None, None, None), Fault::DecodeFault);
    assert_fault_leaves_machine(shaped(0x42, Some(1), Some(2), None), Fault::DecodeFault);
    assert_fault_leaves_machine(shaped(0xFF, Some(1), Some(2), Some(3)), Fault::DecodeFault);
}

#[test]
fn address_beyond_twelve_bits_is_out_of_range() {
    assert_fault_leaves_machine(shaped(0x1, Some(0x1000), None, None), Fault::AddressOutOfRange);
    assert_fault_leaves_machine(shaped(0x2, Some(0x2345), None, None), Fault::AddressOutOfRange);
    assert_fault_leaves_machine(shaped(0xA, Some(0xFFFF), None, None), Fault::AddressOutOfRange);
    assert_fault_leaves_machine(shaped(0xB, Some(0x1000), None, None), Fault::AddressOutOfRange);
    assert_fault_leaves_machine(shaped(0x0, Some(0x10E0), None, None), Fault::AddressOutOfRange);
}

#[test]
fn operands_of_another_layout_are_unhandled() {
    let malformed = [
        shaped(0x1, None, None, None),
        shaped(0x1, Some(0x200), Some(1), None),
        shaped(0x1, Some(0x1000), None, Some(1)),
        shaped(0x6, Some(0x10), Some(1), None),
        shaped(0x6, Some(1), Some(0x100), None),
        shaped(0x6, Some(1), None, None),
        shaped(0x6, None, Some(1), None),
        shaped(0xC, Some(1), Some(1), Some(1)),
        shaped(0x8, Some(1), Some(1), None),
        shaped(0x8, Some(1), Some(0x10), Some(4)),
        shaped(0x9, Some(0x10), Some(1), Some(0)),
        shaped(0xD, Some(1), Some(1), Some(0x10)),
        shaped(0xD, None, None, None),
    ];
    for instr in malformed {
        assert_fault_leaves_machine(instr, Fault::UnhandledOperand);
    }
}

#[test]
fn decoded_words_have_no_fault_of_shape() {
    for word in 0..=u16::MAX {
        let mut emu = Emulator::init();
        match execute_with(&mut emu, decode(word), &NO_KEYS, 0) {
            Ok(()) | Err(Fault::StackUnderflow) | Err(Fault::UnhandledOperand) => {}
            Err(fault) => panic!("word {:04x} gave {:?}", word, fault),
        }
    }
}

#[test]
fn execution_goes_on_after_a_fault() {
    let mut emu = machine_with(&[0x01, 0x23, 0x6B, 0x2A]);
    assert_eq!(cycle(&mut emu, &NO_KEYS), Err(Fault::UnhandledOperand));
    assert_eq!(emu.pc, 0x202);
    assert_eq!(cycle(&mut emu, &NO_KEYS), Ok(()));
    assert_eq!(emu.reg[0xB], 0x2A);
    assert_eq!(emu.pc, 0x204);
}

#[test]
fn execute_and_execute_with_agree_without_randomness() {
    let program: [u16; 10] =
        [0x6105, 0x6203, 0x8124, 0xA300, 0xF133, 0xF255, 0xD125, 0x3108, 0x1ABC, 0x2DEF];
    let mut first = Emulator::init();
    let mut second = Emulator::init();
    for word in program {
        assert_eq!(
            execute(&mut first, decode(word), &NO_KEYS),
            execute_with(&mut second, decode(word), &NO_KEYS, 0x77)
        );
        assert_eq!(first, second);
    }
}

use chip_8::bus::Bus;
use chip_8::cpu::{decode, Cpu, Instruction};
use chip_8::display::Display;
use chip_8::error::Chip8Error;
use chip_8::keypad::Keypad;
use chip_8::mmu::Mmu;
use chip_8::Chip8;

fn machine(rom: &[u8]) -> Chip8 {
    Chip8::new(rom).unwrap()
}

fn run(m: &mut Chip8, steps: usize) {
    for _ in 0..steps {
        m.update().unwrap();
    }
}

#[test]
fn add_registers_sets_carry_on_overflow() {
    // V1 = 0xFF, V2 = 0x01, ADD V1, V2
    let mut m = machine(&[0x61, 0xFF, 0x62, 0x01, 0x81, 0x24]);
    run(&mut m, 3);
    assert_eq!(m.cpu().register(1), 0x00);
    assert_eq!(m.cpu().register(0xF), 1);
}

#[test]
fn add_registers_without_overflow_clears_carry() {
    let mut m = machine(&[0x61, 0x10, 0x62, 0x20, 0x81, 0x24]);
    run(&mut m, 3);
    assert_eq!(m.cpu().register(1), 0x30);
    assert_eq!(m.cpu().register(0xF), 0);
}

#[test]
fn sub_registers_wraps_and_reports_borrow() {
    let mut m = machine(&[0x61, 0x05, 0x62, 0x0A, 0x81, 0x25]);
    run(&mut m, 3);
    assert_eq!(m.cpu().register(1), 0xFB);
    assert_eq!(m.cpu().register(0xF), 0);
}

#[test]
fn sub_registers_without_borrow_sets_flag() {
    let mut m = machine(&[0x61, 0x0A, 0x62, 0x05, 0x81, 0x25]);
    run(&mut m, 3);
    assert_eq!(m.cpu().register(1), 0x05);
    assert_eq!(m.cpu().register(0xF), 1);
}

#[test]
fn subn_writes_vy_minus_vx_into_vy() {
    let mut m = machine(&[0x61, 0x03, 0x62, 0x01, 0x81, 0x27]);
    run(&mut m, 3);
    assert_eq!(m.cpu().register(2), 0xFE);
    assert_eq!(m.cpu().register(1), 0x03);
    assert_eq!(m.cpu().register(0xF), 0);
}

#[test]
fn shl_keeps_raw_high_bit_in_flag() {
    let mut m = machine(&[0x63, 0x80, 0x83, 0x0E]);
    run(&mut m, 2);
    assert_eq!(m.cpu().register(3), 0x00);
    assert_eq!(m.cpu().register(0xF), 0x80);
}

#[test]
fn shr_moves_low_bit_to_flag() {
    let mut m = machine(&[0x63, 0x05, 0x83, 0x06]);
    run(&mut m, 2);
    assert_eq!(m.cpu().register(3), 0x02);
    assert_eq!(m.cpu().register(0xF), 1);
}

#[test]
fn add_byte_wraps_without_flag() {
    let mut m = machine(&[0x6F, 0x07, 0x64, 0xF0, 0x74, 0x20]);
    run(&mut m, 3);
    assert_eq!(m.cpu().register(4), 0x10);
    assert_eq!(m.cpu().register(0xF), 0x07);
}

#[test]
fn bitwise_ops_combine_in_place() {
    let mut m = machine(&[
        0x61, 0b1100, 0x62, 0b1010, 0x63, 0b1100, 0x64, 0b1100, 0x81, 0x21, 0x83, 0x22, 0x84,
        0x23, 0x85, 0x20,
    ]);
    run(&mut m, 8);
    assert_eq!(m.cpu().register(1), 0b1110);
    assert_eq!(m.cpu().register(3), 0b1000);
    assert_eq!(m.cpu().register(4), 0b0110);
    assert_eq!(m.cpu().register(5), 0b1010);
}

#[test]
fn skip_instructions_move_pc_by_two_more() {
    let mut m = machine(&[0x61, 0x05, 0x31, 0x05]);
    run(&mut m, 2);
    assert_eq!(m.cpu().pc(), 0x206);
    let mut m = machine(&[0x61, 0x05, 0x41, 0x05]);
    run(&mut m, 2);
    assert_eq!(m.cpu().pc(), 0x204);
    let mut m = machine(&[0x61, 0x05, 0x62, 0x05, 0x51, 0x20, 0x00, 0x00, 0x91, 0x20]);
    run(&mut m, 3);
    assert_eq!(m.cpu().pc(), 0x208);
    run(&mut m, 1);
    assert_eq!(m.cpu().pc(), 0x20A);
}

#[test]
fn jump_call_and_return() {
    // 0x200: CALL 0x206; 0x202: JP 0x300; 0x206: RET
    let mut m = machine(&[0x22, 0x06, 0x13, 0x00, 0x00, 0x00, 0x00, 0xEE]);
    run(&mut m, 1);
    assert_eq!(m.cpu().pc(), 0x206);
    assert_eq!(m.cpu().stack_depth(), 1);
    run(&mut m, 1);
    assert_eq!(m.cpu().pc(), 0x202);
    assert_eq!(m.cpu().stack_depth(), 0);
    run(&mut m, 1);
    assert_eq!(m.cpu().pc(), 0x300);
}

#[test]
fn return_on_empty_stack_is_underflow() {
    let mut m = machine(&[0x00, 0xEE]);
    assert_eq!(m.update(), Err(Chip8Error::StackUnderflow));
}

#[test]
fn thirteenth_call_is_overflow() {
    // CALL 0x200 forever: twelve nest, the thirteenth fails.
    let mut m = machine(&[0x22, 0x00]);
    run(&mut m, 12);
    assert_eq!(m.cpu().stack_depth(), 12);
    assert_eq!(m.update(), Err(Chip8Error::StackOverflow));
    assert_eq!(m.cpu().stack_depth(), 12);
}

#[test]
fn unknown_opcode_is_reported() {
    let mut m = machine(&[0x51, 0x21]);
    assert_eq!(m.update(), Err(Chip8Error::UnknownOpcode(0x5121)));
    let mut m = machine(&[0xFF, 0xFF]);
    assert_eq!(m.update(), Err(Chip8Error::UnknownOpcode(0xFFFF)));
}

#[test]
fn jump_with_offset_truncates_to_eight_bits() {
    // V0 = 0xF0; JP V0, 0x320 -> (0xF0 + 0x20) & 0xFF = 0x10
    let mut m = machine(&[0x60, 0xF0, 0xB3, 0x20]);
    run(&mut m, 2);
    assert_eq!(m.cpu().pc(), 0x10);
}

#[test]
fn index_register_ops() {
    // LD I, 0xFFF; V1 = 2; ADD I, V1; then LD F, V1
    let mut m = machine(&[0xAF, 0xFF, 0x61, 0x02, 0xF1, 0x1E]);
    run(&mut m, 3);
    assert_eq!(m.cpu().index(), 0x1001);
    let mut m = machine(&[0x61, 0x0A, 0xF1, 0x29]);
    run(&mut m, 2);
    assert_eq!(m.cpu().index(), 50);
}

#[test]
fn add_index_wraps_at_sixteen_bits() {
    let mut bus = Bus::new(Mmu::load(&[]).unwrap(), Display::new(), Keypad::new());
    let mut cpu = Cpu::new();
    for op in [0xAFFFu16, 0x61FF, 0xF11E] {
        cpu.execute_instruction(op, &mut bus, 0).unwrap();
    }
    assert_eq!(cpu.index(), 0x10FE);
}

#[test]
fn bcd_writes_three_digits() {
    let mut m = machine(&[0x61, 0xFE, 0xA3, 0x00, 0xF1, 0x33]);
    run(&mut m, 3);
    assert_eq!(m.bus().read_byte(0x300), 2);
    assert_eq!(m.bus().read_byte(0x301), 5);
    assert_eq!(m.bus().read_byte(0x302), 4);
}

#[test]
fn store_and_load_registers() {
    let mut m = machine(&[
        0x60, 0x11, 0x61, 0x22, 0x62, 0x33, 0xA4, 0x00, 0xF1, 0x55, 0x60, 0x00, 0x61, 0x00,
        0x62, 0x00, 0xF1, 0x65,
    ]);
    run(&mut m, 5);
    assert_eq!(m.bus().read_byte(0x400), 0x11);
    assert_eq!(m.bus().read_byte(0x401), 0x22);
    assert_eq!(m.bus().read_byte(0x402), 0x00);
    run(&mut m, 4);
    assert_eq!(m.cpu().register(0), 0x11);
    assert_eq!(m.cpu().register(1), 0x22);
    assert_eq!(m.cpu().register(2), 0x00);
}

#[test]
fn delay_timer_round_trip() {
    let mut m = machine(&[0x61, 0x05, 0xF1, 0x15, 0xF2, 0x07]);
    run(&mut m, 2);
    assert!(!m.update_timers());
    run(&mut m, 1);
    assert_eq!(m.cpu().delay_timer(), 4);
    assert_eq!(m.cpu().register(2), 4);
}

#[test]
fn sound_timer_beeps_once_on_last_tick() {
    let mut m = machine(&[0x61, 0x03, 0xF1, 0x18]);
    run(&mut m, 2);
    assert_eq!(m.cpu().sound_timer(), 3);
    let beeps: Vec<bool> = (0..3).map(|_| m.update_timers()).collect();
    assert_eq!(beeps, vec![false, false, true]);
    assert_eq!(m.cpu().sound_timer(), 0);
    assert!(!m.update_timers());
    assert_eq!(m.cpu().sound_timer(), 0);
}

#[test]
fn key_wait_repeats_until_a_key_is_pressed() {
    let mut m = machine(&[0xF3, 0x0A]);
    run(&mut m, 1);
    assert_eq!(m.cpu().pc(), 0x200);
    run(&mut m, 1);
    assert_eq!(m.cpu().pc(), 0x200);
    m.press_key(0x7);
    run(&mut m, 1);
    assert_eq!(m.cpu().pc(), 0x202);
    assert_eq!(m.cpu().register(3), 0x7);
}

#[test]
fn key_skips_follow_keypad() {
    let mut m = machine(&[0x61, 0x04, 0xE1, 0x9E]);
    m.press_key(4);
    run(&mut m, 2);
    assert_eq!(m.cpu().pc(), 0x206);
    let mut m = machine(&[0x61, 0x04, 0xE1, 0xA1]);
    run(&mut m, 2);
    assert_eq!(m.cpu().pc(), 0x206);
    let mut m = machine(&[0x61, 0x44, 0xE1, 0x9E]);
    run(&mut m, 2);
    assert_eq!(m.cpu().pc(), 0x204);
}

#[test]
fn draw_opcode_sets_collision_flag() {
    // I = font glyph 0; draw it twice at (0, 0).
    let mut m = machine(&[0xA0, 0x00, 0xD0, 0x05, 0xD0, 0x05]);
    run(&mut m, 2);
    assert_eq!(m.cpu().register(0xF), 0);
    let px = m.get_pixels();
    assert_eq!(px[0][0], 1);
    assert_eq!(px[3][0], 1);
    assert_eq!(px[4][0], 0);
    assert_eq!(px[1][1], 0);
    run(&mut m, 1);
    assert_eq!(m.cpu().register(0xF), 1);
    assert!(m.get_pixels().iter().all(|col| col.iter().all(|&p| p == 0)));
}

#[test]
fn cls_clears_every_pixel() {
    let mut m = machine(&[0xA0, 0x00, 0xD0, 0x05, 0x00, 0xE0]);
    run(&mut m, 2);
    assert!(m.get_pixels().iter().any(|col| col.iter().any(|&p| p == 1)));
    run(&mut m, 1);
    let px = m.get_pixels();
    assert_eq!(px.len(), 64);
    assert!(px.iter().all(|col| col.len() == 32 && col.iter().all(|&p| p == 0)));
}

#[test]
fn random_byte_is_masked() {
    let mut m = machine(&[0xC1, 0x00, 0xC2, 0x0F]);
    run(&mut m, 2);
    assert_eq!(m.cpu().register(1), 0);
    assert!(m.cpu().register(2) <= 0x0F);
}

#[test]
fn execute_with_given_random_byte() {
    let mut bus = Bus::new(Mmu::load(&[]).unwrap(), Display::new(), Keypad::new());
    let mut cpu = Cpu::new();
    cpu.execute_instruction(0xC53C, &mut bus, 0xA5).unwrap();
    assert_eq!(cpu.register(5), 0x24);
}

#[test]
fn decode_table() {
    assert_eq!(decode(0x00E0), Some(Instruction::Cls));
    assert_eq!(decode(0x00EE), Some(Instruction::Ret));
    assert_eq!(decode(0x1ABC), Some(Instruction::Jp(0xABC)));
    assert_eq!(decode(0x2ABC), Some(Instruction::Call(0xABC)));
    assert_eq!(decode(0x3A12), Some(Instruction::SeByte(0xA, 0x12)));
    assert_eq!(decode(0x8AB6), Some(Instruction::Shr(0xA)));
    assert_eq!(decode(0xD123), Some(Instruction::Drw(1, 2, 3)));
    assert_eq!(decode(0xF265), Some(Instruction::LdVxI(2)));
    assert_eq!(decode(0x0123), None);
    assert_eq!(decode(0x8008), None);
    assert_eq!(decode(0xE1FF), None);
}

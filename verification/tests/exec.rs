use chip8::bus::Bus;
use chip8::cpu::Cpu;
use chip8::error::Chip8Error;

/// Writes one big-endian instruction word at `addr`.
fn put_word(bus: &mut Bus, addr: u16, word: u16) {
    bus.load_byte(addr, (word >> 8) as u8);
    bus.load_byte(addr + 1, (word & 0xFF) as u8);
}

fn machine() -> (Cpu, Bus) {
    (Cpu::new(), Bus::new())
}

#[test]
fn add_with_carry() {
    let (mut cpu, mut bus) = machine();
    put_word(&mut bus, 0x200, 0x8014);
    cpu.load_reg(0, 200);
    cpu.load_reg(1, 100);
    assert!(cpu.exec_instruction(&mut bus).is_ok());
    assert_eq!(cpu.read_reg(0), 44);
    assert_eq!(cpu.read_reg(15), 1);
    assert_eq!(cpu.get_pc(), 0x202);
}

#[test]
fn add_without_carry() {
    let (mut cpu, mut bus) = machine();
    put_word(&mut bus, 0x200, 0x8014);
    cpu.load_reg(0, 10);
    cpu.load_reg(1, 20);
    cpu.load_reg(15, 1);
    assert!(cpu.exec_instruction(&mut bus).is_ok());
    assert_eq!(cpu.read_reg(0), 30);
    assert_eq!(cpu.read_reg(15), 0);
}

#[test]
fn sub_without_borrow() {
    let (mut cpu, mut bus) = machine();
    put_word(&mut bus, 0x200, 0x8015);
    cpu.load_reg(0, 50);
    cpu.load_reg(1, 20);
    assert!(cpu.exec_instruction(&mut bus).is_ok());
    assert_eq!(cpu.read_reg(0), 30);
    assert_eq!(cpu.read_reg(15), 1);
}

#[test]
fn sub_with_borrow_wraps() {
    let (mut cpu, mut bus) = machine();
    put_word(&mut bus, 0x200, 0x8015);
    cpu.load_reg(0, 20);
    cpu.load_reg(1, 50);
    assert!(cpu.exec_instruction(&mut bus).is_ok());
    assert_eq!(cpu.read_reg(0), 226);
    assert_eq!(cpu.read_reg(15), 0);
}

#[test]
fn sub_equal_values_sets_no_borrow() {
    let (mut cpu, mut bus) = machine();
    put_word(&mut bus, 0x200, 0x8015);
    cpu.load_reg(0, 77);
    cpu.load_reg(1, 77);
    assert!(cpu.exec_instruction(&mut bus).is_ok());
    assert_eq!(cpu.read_reg(0), 0);
    assert_eq!(cpu.read_reg(15), 1);
}

#[test]
fn sub_from_without_borrow() {
    let (mut cpu, mut bus) = machine();
    put_word(&mut bus, 0x200, 0x8017);
    cpu.load_reg(0, 20);
    cpu.load_reg(1, 50);
    assert!(cpu.exec_instruction(&mut bus).is_ok());
    assert_eq!(cpu.read_reg(0), 30);
    assert_eq!(cpu.read_reg(15), 1);
}

#[test]
fn sub_from_with_borrow_wraps() {
    let (mut cpu, mut bus) = machine();
    put_word(&mut bus, 0x200, 0x8017);
    cpu.load_reg(0, 50);
    cpu.load_reg(1, 20);
    assert!(cpu.exec_instruction(&mut bus).is_ok());
    assert_eq!(cpu.read_reg(0), 226);
    assert_eq!(cpu.read_reg(15), 0);
}

#[test]
fn shift_right_reports_low_bit() {
    let (mut cpu, mut bus) = machine();
    put_word(&mut bus, 0x200, 0x8016);
    cpu.load_reg(0, 0b1011_0011);
    assert!(cpu.exec_instruction(&mut bus).is_ok());
    assert_eq!(cpu.read_reg(15), 1);
    assert_eq!(cpu.read_reg(0), 0b0101_1001);
}

#[test]
fn shift_left_reports_high_bit() {
    let (mut cpu, mut bus) = machine();
    put_word(&mut bus, 0x200, 0x801E);
    cpu.load_reg(0, 0b1011_0011);
    assert!(cpu.exec_instruction(&mut bus).is_ok());
    assert_eq!(cpu.read_reg(15), 1);
    assert_eq!(cpu.read_reg(0), 0b0110_0110);
}

#[test]
fn call_then_return_restores_pc() {
    let (mut cpu, mut bus) = machine();
    put_word(&mut bus, 0x200, 0x2300);
    put_word(&mut bus, 0x300, 0x00EE);
    assert!(cpu.exec_instruction(&mut bus).is_ok());
    assert_eq!(cpu.get_pc(), 0x300);
    assert_eq!(cpu.stack_depth(), 1);
    assert!(cpu.exec_instruction(&mut bus).is_ok());
    assert_eq!(cpu.get_pc(), 0x202);
    assert_eq!(cpu.stack_depth(), 0);
}

#[test]
fn seventeenth_call_overflows_stack() {
    let (mut cpu, mut bus) = machine();
    put_word(&mut bus, 0x200, 0x2200);
    for _ in 0..16 {
        assert!(cpu.exec_instruction(&mut bus).is_ok());
    }
    assert_eq!(cpu.stack_depth(), 16);
    let result = cpu.exec_instruction(&mut bus);
    assert_eq!(
        result,
        Err(Chip8Error::StackOverflow { pc: 0x200, word: 0x2200 })
    );
    assert_eq!(cpu.stack_depth(), 16);
}

#[test]
fn return_on_empty_stack_underflows() {
    let (mut cpu, mut bus) = machine();
    put_word(&mut bus, 0x200, 0x00EE);
    let result = cpu.exec_instruction(&mut bus);
    assert_eq!(
        result,
        Err(Chip8Error::StackUnderflow { pc: 0x200, word: 0x00EE })
    );
    assert_eq!(cpu.get_pc(), 0x200);
}

#[test]
fn skip_eq_imm_taken_and_not_taken() {
    let (mut cpu, mut bus) = machine();
    put_word(&mut bus, 0x200, 0x6A3C);
    put_word(&mut bus, 0x202, 0x3A3C);
    assert!(cpu.exec_instruction(&mut bus).is_ok());
    assert_eq!(cpu.read_reg(0xA), 0x3C);
    assert!(cpu.exec_instruction(&mut bus).is_ok());
    assert_eq!(cpu.get_pc(), 0x206);

    let (mut cpu2, mut bus2) = machine();
    put_word(&mut bus2, 0x200, 0x6A3C);
    put_word(&mut bus2, 0x202, 0x3AFF);
    assert!(cpu2.exec_instruction(&mut bus2).is_ok());
    assert!(cpu2.exec_instruction(&mut bus2).is_ok());
    assert_eq!(cpu2.get_pc(), 0x204);
}

#[test]
fn skip_ne_imm() {
    let (mut cpu, mut bus) = machine();
    put_word(&mut bus, 0x200, 0x4A3C);
    assert!(cpu.exec_instruction(&mut bus).is_ok());
    assert_eq!(cpu.get_pc(), 0x204);

    let (mut cpu2, mut bus2) = machine();
    put_word(&mut bus2, 0x200, 0x4A00);
    assert!(cpu2.exec_instruction(&mut bus2).is_ok());
    assert_eq!(cpu2.get_pc(), 0x202);
}

#[test]
fn skip_eq_reg_and_ne_reg() {
    let (mut cpu, mut bus) = machine();
    put_word(&mut bus, 0x200, 0x5010);
    cpu.load_reg(0, 9);
    cpu.load_reg(1, 9);
    assert!(cpu.exec_instruction(&mut bus).is_ok());
    assert_eq!(cpu.get_pc(), 0x204);

    let (mut cpu2, mut bus2) = machine();
    put_word(&mut bus2, 0x200, 0x9010);
    cpu2.load_reg(0, 9);
    cpu2.load_reg(1, 8);
    assert!(cpu2.exec_instruction(&mut bus2).is_ok());
    assert_eq!(cpu2.get_pc(), 0x204);

    let (mut cpu3, mut bus3) = machine();
    put_word(&mut bus3, 0x200, 0x9010);
    cpu3.load_reg(0, 9);
    cpu3.load_reg(1, 9);
    assert!(cpu3.exec_instruction(&mut bus3).is_ok());
    assert_eq!(cpu3.get_pc(), 0x202);
}

#[test]
fn jump_sets_pc() {
    let (mut cpu, mut bus) = machine();
    put_word(&mut bus, 0x200, 0x1ABC);
    assert!(cpu.exec_instruction(&mut bus).is_ok());
    assert_eq!(cpu.get_pc(), 0xABC);
}

#[test]
fn jump_v0_adds_offset() {
    let (mut cpu, mut bus) = machine();
    put_word(&mut bus, 0x200, 0xB300);
    cpu.load_reg(0, 5);
    assert!(cpu.exec_instruction(&mut bus).is_ok());
    assert_eq!(cpu.get_pc(), 0x305);
}

#[test]
fn set_and_add_imm_wraps() {
    let (mut cpu, mut bus) = machine();
    put_word(&mut bus, 0x200, 0x60FA);
    put_word(&mut bus, 0x202, 0x7010);
    assert!(cpu.exec_instruction(&mut bus).is_ok());
    assert_eq!(cpu.read_reg(0), 0xFA);
    assert!(cpu.exec_instruction(&mut bus).is_ok());
    assert_eq!(cpu.read_reg(0), 0x0A);
    assert_eq!(cpu.read_reg(15), 0);
}

#[test]
fn copy_or_and_xor() {
    let (mut cpu, mut bus) = machine();
    put_word(&mut bus, 0x200, 0x8010);
    put_word(&mut bus, 0x202, 0x8231);
    put_word(&mut bus, 0x204, 0x8452);
    put_word(&mut bus, 0x206, 0x8673);
    cpu.load_reg(1, 0x0F);
    cpu.load_reg(2, 0xF0);
    cpu.load_reg(3, 0x3C);
    cpu.load_reg(4, 0x0F);
    cpu.load_reg(5, 0x1E);
    cpu.load_reg(6, 0x33);
    cpu.load_reg(7, 0x55);
    assert!(cpu.exec_instruction(&mut bus).is_ok());
    assert_eq!(cpu.read_reg(0), 0x0F);
    assert!(cpu.exec_instruction(&mut bus).is_ok());
    assert_eq!(cpu.read_reg(2), 0xFC);
    assert!(cpu.exec_instruction(&mut bus).is_ok());
    assert_eq!(cpu.read_reg(4), 0x0E);
    assert!(cpu.exec_instruction(&mut bus).is_ok());
    assert_eq!(cpu.read_reg(6), 0x66);
}

#[test]
fn random_with_zero_mask_is_always_zero() {
    let (mut cpu, mut bus) = machine();
    put_word(&mut bus, 0x200, 0xC500);
    put_word(&mut bus, 0x202, 0x1200);
    cpu.load_reg(5, 0xAB);
    for _ in 0..10_000 {
        assert!(cpu.exec_instruction(&mut bus).is_ok());
        assert_eq!(cpu.read_reg(5), 0);
        assert!(cpu.exec_instruction(&mut bus).is_ok());
        assert_eq!(cpu.get_pc(), 0x200);
    }
}

#[test]
fn random_respects_mask() {
    let (mut cpu, mut bus) = machine();
    put_word(&mut bus, 0x200, 0xC50F);
    put_word(&mut bus, 0x202, 0x1200);
    for _ in 0..1_000 {
        assert!(cpu.exec_instruction(&mut bus).is_ok());
        assert!(cpu.read_reg(5) <= 0x0F);
        assert!(cpu.exec_instruction(&mut bus).is_ok());
    }
}

#[test]
fn unknown_word_is_a_decode_error() {
    let (mut cpu, mut bus) = machine();
    put_word(&mut bus, 0x200, 0x0000);
    assert_eq!(
        cpu.exec_instruction(&mut bus),
        Err(Chip8Error::DecodeError { pc: 0x200, word: 0x0000 })
    );

    let (mut cpu2, mut bus2) = machine();
    put_word(&mut bus2, 0x200, 0xFFFF);
    assert_eq!(
        cpu2.exec_instruction(&mut bus2),
        Err(Chip8Error::DecodeError { pc: 0x200, word: 0xFFFF })
    );
}

#[test]
fn pc_at_end_of_memory_is_out_of_bounds() {
    let (mut cpu, mut bus) = machine();
    put_word(&mut bus, 0x200, 0x1FFF);
    assert!(cpu.exec_instruction(&mut bus).is_ok());
    assert_eq!(cpu.get_pc(), 0xFFF);
    assert_eq!(
        cpu.exec_instruction(&mut bus),
        Err(Chip8Error::OutOfBounds { address: 0xFFF })
    );
    assert_eq!(cpu.get_pc(), 0xFFF);
}

#[test]
fn set_index_and_add_index() {
    let (mut cpu, mut bus) = machine();
    put_word(&mut bus, 0x200, 0xA100);
    put_word(&mut bus, 0x202, 0xF01E);
    cpu.load_reg(0, 5);
    assert!(cpu.exec_instruction(&mut bus).is_ok());
    assert_eq!(cpu.get_index(), 0x100);
    assert!(cpu.exec_instruction(&mut bus).is_ok());
    assert_eq!(cpu.get_index(), 0x105);
}

#[test]
fn font_address_is_five_per_digit() {
    let (mut cpu, mut bus) = machine();
    put_word(&mut bus, 0x200, 0xF029);
    cpu.load_reg(0, 0xA);
    assert!(cpu.exec_instruction(&mut bus).is_ok());
    assert_eq!(cpu.get_index(), 50);
}

#[test]
fn delay_and_sound_timers() {
    let (mut cpu, mut bus) = machine();
    put_word(&mut bus, 0x200, 0xF007);
    put_word(&mut bus, 0x202, 0xF115);
    put_word(&mut bus, 0x204, 0xF218);
    bus.set_delay(7);
    cpu.load_reg(1, 9);
    cpu.load_reg(2, 11);
    assert!(cpu.exec_instruction(&mut bus).is_ok());
    assert_eq!(cpu.read_reg(0), 7);
    assert!(cpu.exec_instruction(&mut bus).is_ok());
    assert_eq!(bus.get_delay(), 9);
    assert!(cpu.exec_instruction(&mut bus).is_ok());
    assert_eq!(bus.get_sound(), 11);
}

#[test]
fn bcd_stores_three_digits() {
    let (mut cpu, mut bus) = machine();
    put_word(&mut bus, 0x200, 0xA300);
    put_word(&mut bus, 0x202, 0xF033);
    cpu.load_reg(0, 234);
    assert!(cpu.exec_instruction(&mut bus).is_ok());
    assert!(cpu.exec_instruction(&mut bus).is_ok());
    assert_eq!(bus.read_byte(0x300), 2);
    assert_eq!(bus.read_byte(0x301), 3);
    assert_eq!(bus.read_byte(0x302), 4);
}

#[test]
fn store_and_load_registers() {
    let (mut cpu, mut bus) = machine();
    put_word(&mut bus, 0x200, 0xA400);
    put_word(&mut bus, 0x202, 0xF255);
    put_word(&mut bus, 0x204, 0x6000);
    put_word(&mut bus, 0x206, 0xF265);
    cpu.load_reg(0, 10);
    cpu.load_reg(1, 20);
    cpu.load_reg(2, 30);
    cpu.load_reg(3, 99);
    assert!(cpu.exec_instruction(&mut bus).is_ok());
    assert!(cpu.exec_instruction(&mut bus).is_ok());
    assert_eq!(bus.read_byte(0x400), 10);
    assert_eq!(bus.read_byte(0x401), 20);
    assert_eq!(bus.read_byte(0x402), 30);
    assert_eq!(bus.read_byte(0x403), 0);
    assert!(cpu.exec_instruction(&mut bus).is_ok());
    assert_eq!(cpu.read_reg(0), 0);
    assert!(cpu.exec_instruction(&mut bus).is_ok());
    assert_eq!(cpu.read_reg(0), 10);
    assert_eq!(cpu.read_reg(1), 20);
    assert_eq!(cpu.read_reg(2), 30);
    assert_eq!(cpu.read_reg(3), 99);
}

#[test]
fn store_registers_out_of_bounds() {
    let (mut cpu, mut bus) = machine();
    put_word(&mut bus, 0x200, 0xAFFF);
    put_word(&mut bus, 0x202, 0xF155);
    assert!(cpu.exec_instruction(&mut bus).is_ok());
    assert_eq!(
        cpu.exec_instruction(&mut bus),
        Err(Chip8Error::OutOfBounds { address: 0xFFF })
    );
}

#[test]
fn keypad_skips() {
    let (mut cpu, mut bus) = machine();
    put_word(&mut bus, 0x200, 0xE09E);
    bus.set_key(4, true);
    cpu.load_reg(0, 4);
    assert!(cpu.exec_instruction(&mut bus).is_ok());
    assert_eq!(cpu.get_pc(), 0x204);

    let (mut cpu2, mut bus2) = machine();
    put_word(&mut bus2, 0x200, 0xE0A1);
    bus2.set_key(4, true);
    cpu2.load_reg(0, 4);
    assert!(cpu2.exec_instruction(&mut bus2).is_ok());
    assert_eq!(cpu2.get_pc(), 0x202);

    let (mut cpu3, mut bus3) = machine();
    put_word(&mut bus3, 0x200, 0xE0A1);
    cpu3.load_reg(0, 4);
    assert!(cpu3.exec_instruction(&mut bus3).is_ok());
    assert_eq!(cpu3.get_pc(), 0x204);
}

#[test]
fn draw_sets_pixels_and_reports_collision() {
    let (mut cpu, mut bus) = machine();
    bus.load_byte(0x300, 0xFF);
    put_word(&mut bus, 0x200, 0xA300);
    put_word(&mut bus, 0x202, 0xD011);
    put_word(&mut bus, 0x204, 0xD011);
    assert!(cpu.exec_instruction(&mut bus).is_ok());
    assert!(cpu.exec_instruction(&mut bus).is_ok());
    assert_eq!(bus.row_bits(0), 0xFF00_0000_0000_0000);
    assert_eq!(cpu.read_reg(15), 0);
    assert!(cpu.exec_instruction(&mut bus).is_ok());
    assert_eq!(bus.row_bits(0), 0);
    assert_eq!(cpu.read_reg(15), 1);
}

#[test]
fn draw_wraps_both_axes() {
    let (mut cpu, mut bus) = machine();
    bus.load_byte(0x300, 0xFF);
    bus.load_byte(0x301, 0xFF);
    put_word(&mut bus, 0x200, 0xA300);
    put_word(&mut bus, 0x202, 0xD012);
    cpu.load_reg(0, 60);
    cpu.load_reg(1, 31);
    assert!(cpu.exec_instruction(&mut bus).is_ok());
    assert!(cpu.exec_instruction(&mut bus).is_ok());
    assert_eq!(bus.row_bits(31), 0xF000_0000_0000_000F);
    assert_eq!(bus.row_bits(0), 0xF000_0000_0000_000F);
}

#[test]
fn clear_screen_blanks_every_row() {
    let (mut cpu, mut bus) = machine();
    bus.load_byte(0x300, 0xFF);
    put_word(&mut bus, 0x200, 0xA300);
    put_word(&mut bus, 0x202, 0xD011);
    put_word(&mut bus, 0x204, 0x00E0);
    assert!(cpu.exec_instruction(&mut bus).is_ok());
    assert!(cpu.exec_instruction(&mut bus).is_ok());
    assert_eq!(bus.row_bits(0), 0xFF00_0000_0000_0000);
    assert!(cpu.exec_instruction(&mut bus).is_ok());
    for row in 0..32 {
        assert_eq!(bus.row_bits(row), 0);
    }
    assert_eq!(cpu.get_pc(), 0x206);
}

use chip8::chip8::Chip8;
use chip8::cpu::PROGRAM_START;
use chip8::decode::{decode, Instruction};
use chip8::error::Chip8Error;
use chip8::ram::{Ram, MEMORY_SIZE};
use chip8::bus::Bus;

#[test]
fn fresh_machine_is_reset() {
    let chip = Chip8::new();
    assert_eq!(chip.cpu().get_pc(), PROGRAM_START);
    assert_eq!(chip.cpu().get_index(), 0);
    assert_eq!(chip.cpu().stack_depth(), 0);
    for r in 0..16 {
        assert_eq!(chip.cpu().read_reg(r), 0);
    }
    assert_eq!(chip.bus().read_byte(0), 0);
    assert_eq!(chip.bus().read_byte(0xFFF), 0);
}

#[test]
fn load_places_every_byte_at_its_offset() {
    let mut chip = Chip8::new();
    let program: Vec<u8> = (0..200u16).map(|i| (i % 251) as u8).collect();
    assert!(chip.load(program.clone()).is_ok());
    for (i, byte) in program.iter().enumerate() {
        assert_eq!(chip.bus().read_byte(PROGRAM_START + i as u16), *byte);
    }
    assert_eq!(chip.bus().read_byte(PROGRAM_START + 200), 0);
    assert_eq!(chip.bus().read_byte(PROGRAM_START - 1), 0);
}

#[test]
fn load_fills_memory_to_capacity() {
    let mut chip = Chip8::new();
    let program = vec![0xAB; MEMORY_SIZE - PROGRAM_START as usize];
    assert!(chip.load(program).is_ok());
    assert_eq!(chip.bus().read_byte(0xFFF), 0xAB);
}

#[test]
fn oversized_image_is_refused_whole() {
    let mut chip = Chip8::new();
    let program = vec![0xAB; MEMORY_SIZE - PROGRAM_START as usize + 1];
    assert_eq!(
        chip.load(program),
        Err(Chip8Error::OutOfBounds { address: MEMORY_SIZE as u16 })
    );
    assert_eq!(chip.bus().read_byte(PROGRAM_START), 0);
    assert_eq!(chip.bus().read_byte(0xFFF), 0);
}

#[test]
fn clock_runs_a_loaded_program() {
    let mut chip = Chip8::new();
    assert!(chip.load(vec![0x6A, 0x3C, 0x1A, 0xBC]).is_ok());
    assert!(chip.clock().is_ok());
    assert_eq!(chip.cpu().read_reg(0xA), 0x3C);
    assert!(chip.clock().is_ok());
    assert_eq!(chip.cpu().get_pc(), 0xABC);
}

#[test]
fn clock_surfaces_errors_unchanged() {
    let mut chip = Chip8::new();
    assert_eq!(
        chip.clock(),
        Err(Chip8Error::DecodeError { pc: 0x200, word: 0x0000 })
    );
    assert_eq!(chip.cpu().get_pc(), 0x200);
}

#[test]
fn host_reaches_keys_and_timers_through_the_bus() {
    let mut chip = Chip8::new();
    chip.bus_mut().set_key(0xF, true);
    assert!(chip.bus().is_pressed(0xF));
    assert!(!chip.bus().is_pressed(0xE));
    chip.bus_mut().set_key(0xF, false);
    assert!(!chip.bus().is_pressed(0xF));
    chip.bus_mut().set_delay(60);
    let d = chip.bus().get_delay();
    chip.bus_mut().set_delay(d - 1);
    assert_eq!(chip.bus().get_delay(), 59);
}

#[test]
fn decoder_matches_the_instruction_table() {
    assert_eq!(decode(0x00E0), Some(Instruction::ClearScreen));
    assert_eq!(decode(0x00EE), Some(Instruction::Return));
    assert_eq!(decode(0x1ABC), Some(Instruction::Jump { nnn: 0xABC }));
    assert_eq!(decode(0x2123), Some(Instruction::Call { nnn: 0x123 }));
    assert_eq!(decode(0x3A3C), Some(Instruction::SkipEqImm { x: 0xA, nn: 0x3C }));
    assert_eq!(decode(0x4A3C), Some(Instruction::SkipNeImm { x: 0xA, nn: 0x3C }));
    assert_eq!(decode(0x5120), Some(Instruction::SkipEqReg { x: 1, y: 2 }));
    assert_eq!(decode(0x6A3C), Some(Instruction::SetImm { x: 0xA, nn: 0x3C }));
    assert_eq!(decode(0x7A3C), Some(Instruction::AddImm { x: 0xA, nn: 0x3C }));
    assert_eq!(decode(0x8120), Some(Instruction::Copy { x: 1, y: 2 }));
    assert_eq!(decode(0x8121), Some(Instruction::Or { x: 1, y: 2 }));
    assert_eq!(decode(0x8122), Some(Instruction::And { x: 1, y: 2 }));
    assert_eq!(decode(0x8123), Some(Instruction::Xor { x: 1, y: 2 }));
    assert_eq!(decode(0x8124), Some(Instruction::Add { x: 1, y: 2 }));
    assert_eq!(decode(0x8125), Some(Instruction::Sub { x: 1, y: 2 }));
    assert_eq!(decode(0x8126), Some(Instruction::ShiftRight { x: 1, y: 2 }));
    assert_eq!(decode(0x8127), Some(Instruction::SubFrom { x: 1, y: 2 }));
    assert_eq!(decode(0x812E), Some(Instruction::ShiftLeft { x: 1, y: 2 }));
    assert_eq!(decode(0x9120), Some(Instruction::SkipNeReg { x: 1, y: 2 }));
    assert_eq!(decode(0xA123), Some(Instruction::SetIndex { nnn: 0x123 }));
    assert_eq!(decode(0xB123), Some(Instruction::JumpV0 { nnn: 0x123 }));
    assert_eq!(decode(0xC13C), Some(Instruction::Random { x: 1, nn: 0x3C }));
    assert_eq!(decode(0xD125), Some(Instruction::Draw { x: 1, y: 2, n: 5 }));
    assert_eq!(decode(0xE19E), Some(Instruction::SkipKey { x: 1 }));
    assert_eq!(decode(0xE1A1), Some(Instruction::SkipNoKey { x: 1 }));
    assert_eq!(decode(0xF107), Some(Instruction::ReadDelay { x: 1 }));
    assert_eq!(decode(0xF115), Some(Instruction::SetDelay { x: 1 }));
    assert_eq!(decode(0xF118), Some(Instruction::SetSound { x: 1 }));
    assert_eq!(decode(0xF11E), Some(Instruction::AddIndex { x: 1 }));
    assert_eq!(decode(0xF129), Some(Instruction::FontAddr { x: 1 }));
    assert_eq!(decode(0xF133), Some(Instruction::StoreBcd { x: 1 }));
    assert_eq!(decode(0xF155), Some(Instruction::StoreRegs { x: 1 }));
    assert_eq!(decode(0xF165), Some(Instruction::LoadRegs { x: 1 }));
}

#[test]
fn decoder_refuses_words_off_the_table() {
    assert_eq!(decode(0x0000), None);
    assert_eq!(decode(0x00EF), None);
    assert_eq!(decode(0x5121), None);
    assert_eq!(decode(0x8128), None);
    assert_eq!(decode(0x812F), None);
    assert_eq!(decode(0x9121), None);
    assert_eq!(decode(0xE19F), None);
    assert_eq!(decode(0xF100), None);
    assert_eq!(decode(0xFFFF), None);
}

#[test]
fn ram_reads_back_what_was_stored() {
    let mut ram = Ram::new();
    assert_eq!(ram.read_byte(0), 0);
    ram.load_byte(0, 0x12);
    ram.load_byte(0xFFF, 0x34);
    assert_eq!(ram.read_byte(0), 0x12);
    assert_eq!(ram.read_byte(0xFFF), 0x34);
    assert_eq!(ram.read_byte(1), 0);
}

#[test]
fn bus_forwards_memory_access() {
    let mut bus = Bus::new();
    bus.load_byte(0x123, 0x45);
    assert_eq!(bus.read_byte(0x123), 0x45);
    assert_eq!(bus.read_byte(0x124), 0);
}

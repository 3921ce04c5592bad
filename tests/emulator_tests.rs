use chip8_emulator::display::{ChipDisplay, MatrixDisplay};
use chip8_emulator::opcode::{split_opcode_bytes, OpCode};
use chip8_emulator::rand::Rand;
use chip8_emulator::{Emulator, EmulatorBuilder, EmulatorError};

fn machine_with(program: &[u8]) -> Emulator<MatrixDisplay> {
    EmulatorBuilder::new()
        .seed_random(7)
        .build_with_program(MatrixDisplay::new(), program)
        .unwrap()
}

fn run(emulator: &mut Emulator<MatrixDisplay>, steps: usize) {
    for _ in 0..steps {
        emulator.next_opcode().unwrap();
    }
}

#[test]
fn split_gives_four_nibbles() {
    assert_eq!(split_opcode_bytes((0xAB, 0xCD)), (0xA, 0xB, 0xC, 0xD));
    assert_eq!(split_opcode_bytes((0x00, 0xFF)), (0x0, 0x0, 0xF, 0xF));
}

#[test]
fn decode_add_register_const() {
    assert_eq!(OpCode::try_from((0x73, 0xFF)), Ok(OpCode::AddRegisterConst(3, 0xFF)));
}

#[test]
fn decode_operand_extraction() {
    assert_eq!(OpCode::try_from((0x00, 0xE0)), Ok(OpCode::DisplayClear));
    assert_eq!(OpCode::try_from((0x00, 0xEE)), Ok(OpCode::Return));
    assert_eq!(OpCode::try_from((0x01, 0x23)), Ok(OpCode::CallMachineCode(0x123)));
    assert_eq!(OpCode::try_from((0x1A, 0xBC)), Ok(OpCode::Jump(0xABC)));
    assert_eq!(OpCode::try_from((0x2F, 0xFF)), Ok(OpCode::CallSubroutine(0xFFF)));
    assert_eq!(OpCode::try_from((0x35, 0x42)), Ok(OpCode::CompareEqConst(5, 0x42)));
    assert_eq!(OpCode::try_from((0x45, 0x42)), Ok(OpCode::CompareNotEqConst(5, 0x42)));
    assert_eq!(OpCode::try_from((0x51, 0x20)), Ok(OpCode::CompareEq(1, 2)));
    assert_eq!(OpCode::try_from((0x6A, 0x07)), Ok(OpCode::SetRegisterConst(0xA, 7)));
    assert_eq!(OpCode::try_from((0x81, 0x20)), Ok(OpCode::SetRegister(1, 2)));
    assert_eq!(OpCode::try_from((0x81, 0x21)), Ok(OpCode::Or(1, 2)));
    assert_eq!(OpCode::try_from((0x81, 0x22)), Ok(OpCode::And(1, 2)));
    assert_eq!(OpCode::try_from((0x81, 0x23)), Ok(OpCode::Xor(1, 2)));
    assert_eq!(OpCode::try_from((0x81, 0x24)), Ok(OpCode::Add(1, 2)));
    assert_eq!(OpCode::try_from((0x81, 0x25)), Ok(OpCode::Sub(1, 2)));
    assert_eq!(OpCode::try_from((0x81, 0x26)), Ok(OpCode::ShiftRight(1)));
    assert_eq!(OpCode::try_from((0x81, 0x27)), Ok(OpCode::SubFrom(1, 2)));
    assert_eq!(OpCode::try_from((0x81, 0x2E)), Ok(OpCode::ShiftLeft(1)));
    assert_eq!(OpCode::try_from((0x93, 0x40)), Ok(OpCode::CompareNotEq(3, 4)));
    assert_eq!(OpCode::try_from((0xAF, 0xA0)), Ok(OpCode::SetAddressRegisterConst(0xFA0)));
    assert_eq!(OpCode::try_from((0xB1, 0x00)), Ok(OpCode::JumpOffset(0x100)));
    assert_eq!(OpCode::try_from((0xC2, 0x0F)), Ok(OpCode::Random(2, 0x0F)));
    assert_eq!(OpCode::try_from((0xD1, 0x25)), Ok(OpCode::Draw(1, 2, 5)));
    assert_eq!(OpCode::try_from((0xE3, 0x9E)), Ok(OpCode::KeyPressed(3)));
    assert_eq!(OpCode::try_from((0xE3, 0xA1)), Ok(OpCode::KeyNotPressed(3)));
    assert_eq!(OpCode::try_from((0xF4, 0x07)), Ok(OpCode::GetDelayTimer(4)));
    assert_eq!(OpCode::try_from((0xF4, 0x0A)), Ok(OpCode::AwaitKeyPress(4)));
    assert_eq!(OpCode::try_from((0xF4, 0x15)), Ok(OpCode::SetDelayTimer(4)));
    assert_eq!(OpCode::try_from((0xF4, 0x18)), Ok(OpCode::SetSoundTimer(4)));
    assert_eq!(OpCode::try_from((0xF4, 0x1E)), Ok(OpCode::AddAddressRegister(4)));
    assert_eq!(OpCode::try_from((0xF4, 0x29)), Ok(OpCode::SpriteAddressRegister(4)));
    assert_eq!(OpCode::try_from((0xF4, 0x33)), Ok(OpCode::StoreBCD(4)));
    assert_eq!(OpCode::try_from((0xFF, 0x55)), Ok(OpCode::DumpRegisters(0xF)));
    assert_eq!(OpCode::try_from((0xF4, 0x65)), Ok(OpCode::LoadRegisters(4)));
}

#[test]
fn decode_rejects_unmatched_words() {
    assert_eq!(OpCode::try_from((0x51, 0x21)), Err(()));
    assert_eq!(OpCode::try_from((0x81, 0x28)), Err(()));
    assert_eq!(OpCode::try_from((0x91, 0x2F)), Err(()));
    assert_eq!(OpCode::try_from((0xE1, 0x00)), Err(()));
    assert_eq!(OpCode::try_from((0xF1, 0x00)), Err(()));
    assert_eq!(OpCode::try_from((0xFF, 0xFF)), Err(()));
}

#[test]
fn add_overflow_wraps_and_sets_flag() {
    let mut e = machine_with(&[0x60, 0xFF, 0x61, 0x01, 0x80, 0x14]);
    run(&mut e, 3);
    assert_eq!(e.register(0), 0x00);
    assert_eq!(e.register(0xF), 1);
}

#[test]
fn add_and_sub_flags_are_bits_for_all_pairs() {
    let mut e = machine_with(&[]);
    for a in 0..=255u8 {
        for b in 0..=255u8 {
            for (selector, is_add) in [(0x14u8, true), (0x15u8, false)] {
                let program = [0x60, a, 0x61, b, 0x80, selector, 0x12, 0x00];
                assert!(e.write_memory(&program, 0x200));
                run(&mut e, 3);
                let flag = e.register(0xF);
                assert!(flag == 0 || flag == 1);
                if is_add {
                    assert_eq!(e.register(0), a.wrapping_add(b));
                    assert_eq!(flag == 1, a as u16 + b as u16 > 255);
                } else {
                    assert_eq!(e.register(0), a.wrapping_sub(b));
                    assert_eq!(flag == 1, a >= b);
                }
                run(&mut e, 1);
                assert_eq!(e.program_counter(), 0x200);
            }
        }
    }
}

#[test]
fn reverse_subtract_wraps_without_trapping() {
    let mut e = machine_with(&[0x60, 0x01, 0x61, 0x00, 0x80, 0x17]);
    run(&mut e, 3);
    assert_eq!(e.register(0), 0xFF);
    assert_eq!(e.register(0xF), 0);

    let mut e = machine_with(&[0x60, 0x01, 0x61, 0x03, 0x80, 0x17]);
    run(&mut e, 3);
    assert_eq!(e.register(0), 0x02);
    assert_eq!(e.register(0xF), 1);
}

#[test]
fn reverse_subtract_on_one_register() {
    let mut e = machine_with(&[0x62, 0x09, 0x82, 0x27]);
    run(&mut e, 2);
    assert_eq!(e.register(2), 0);
    assert_eq!(e.register(0xF), 1);
}

#[test]
fn flag_register_as_target_keeps_result() {
    let mut e = machine_with(&[0x6F, 0xFF, 0x61, 0x02, 0x8F, 0x14]);
    run(&mut e, 3);
    assert_eq!(e.register(0xF), 0x01);
}

#[test]
fn shifts_set_flag_from_lost_bit() {
    let mut e = machine_with(&[0x60, 0x81, 0x80, 0x06]);
    run(&mut e, 2);
    assert_eq!(e.register(0), 0x40);
    assert_eq!(e.register(0xF), 1);

    let mut e = machine_with(&[0x60, 0x81, 0x80, 0x0E]);
    run(&mut e, 2);
    assert_eq!(e.register(0), 0x02);
    assert_eq!(e.register(0xF), 1);

    let mut e = machine_with(&[0x60, 0x40, 0x80, 0x0E]);
    run(&mut e, 2);
    assert_eq!(e.register(0), 0x80);
    assert_eq!(e.register(0xF), 0);
}

#[test]
fn bitwise_operations() {
    let mut e = machine_with(&[0x60, 0x0C, 0x61, 0x0A, 0x80, 0x11, 0x82, 0x10]);
    run(&mut e, 4);
    assert_eq!(e.register(0), 0x0E);
    assert_eq!(e.register(2), 0x0A);
    let mut e = machine_with(&[0x60, 0x0C, 0x61, 0x0A, 0x80, 0x12]);
    run(&mut e, 3);
    assert_eq!(e.register(0), 0x08);
    let mut e = machine_with(&[0x60, 0x0C, 0x61, 0x0A, 0x80, 0x13]);
    run(&mut e, 3);
    assert_eq!(e.register(0), 0x06);
}

#[test]
fn add_register_const_wraps() {
    let mut e = machine_with(&[0x60, 0xF0, 0x70, 0x20]);
    run(&mut e, 2);
    assert_eq!(e.register(0), 0x10);
    assert_eq!(e.register(0xF), 0);
}

#[test]
fn skips_advance_by_four_or_two() {
    for v in [0u8, 1, 0x42, 0xFF] {
        for k in [0u8, 1, 0x42, 0xFF] {
            let cases = [(0x30u8, k, v == k), (0x40u8, k, v != k)];
            for (family, byte, holds) in cases {
                let mut e = machine_with(&[0x60, v, family, byte]);
                run(&mut e, 2);
                assert_eq!(e.program_counter(), if holds { 0x206 } else { 0x204 });
            }
            let cases = [(0x50u8, v == k), (0x90u8, v != k)];
            for (family, holds) in cases {
                let mut e = machine_with(&[0x60, v, 0x61, k, family, 0x10]);
                run(&mut e, 3);
                assert_eq!(e.program_counter(), if holds { 0x208 } else { 0x206 });
            }
        }
    }
}

#[test]
fn draw_same_sprite_twice_cancels() {
    let mut d = MatrixDisplay::new();
    let sprite = [1u8, 0, 1, 1, 0, 0, 1, 0, 0, 1, 0, 0, 0, 0, 0, 1];
    assert!(!d.draw_sprite(3, 4, &sprite));
    assert!(d.screen[3 + 4 * 64]);
    assert!(!d.screen[4 + 4 * 64]);
    assert!(d.screen[4 + 5 * 64]);
    assert!(d.screen[10 + 5 * 64]);
    assert!(d.draw_sprite(3, 4, &sprite));
    assert!(d.screen.iter().all(|p| !p));
}

#[test]
fn draw_empty_sprite_never_collides() {
    let mut d = MatrixDisplay::new();
    assert!(!d.draw_sprite(0, 0, &[0; 8]));
    assert!(!d.draw_sprite(0, 0, &[0; 8]));
    assert!(d.screen.iter().all(|p| !p));
}

#[test]
fn clear_unsets_every_pixel() {
    let mut d = MatrixDisplay::new();
    d.draw_sprite(56, 31, &[1; 8]);
    assert!(d.screen[2047]);
    d.clear();
    assert!(d.screen.iter().all(|p| !p));
}

#[test]
fn clear_display_instruction() {
    let mut e = machine_with(&[0xA2, 0x00, 0xD0, 0x01, 0x00, 0xE0]);
    run(&mut e, 2);
    assert!(e.display.screen.iter().any(|p| *p));
    run(&mut e, 1);
    assert!(e.display.screen.iter().all(|p| !p));
}

#[test]
fn draw_off_screen_is_rejected() {
    let mut e = machine_with(&[0x60, 0x39, 0xD0, 0x11]);
    run(&mut e, 1);
    assert_eq!(e.next_opcode(), Err(EmulatorError::MemoryOutOfBounds));
    assert_eq!(e.program_counter(), 0x202);
    let mut e = machine_with(&[0x60, 0x1F, 0xD1, 0x02]);
    run(&mut e, 1);
    assert_eq!(e.next_opcode(), Err(EmulatorError::MemoryOutOfBounds));
}

#[test]
fn draw_reads_eight_bytes_per_row() {
    let mut e = machine_with(&[0xA2, 0x08, 0xD0, 0x01, 0x00, 0x00, 0x00, 0x00, 0x01]);
    run(&mut e, 2);
    assert!(e.display.screen[0]);
    for i in 1..64 * 32 {
        assert!(!e.display.screen[i], "pixel {}", i);
    }
    let mut e = machine_with(&[0xA2, 0x08, 0xD0, 0x02, 0, 0, 0, 0, 0, 1, 0, 0, 0, 0, 0, 0, 0, 1, 0, 0, 0, 0, 0, 0]);
    run(&mut e, 2);
    assert!(e.display.screen[1]);
    assert!(e.display.screen[64 + 1]);
    assert_eq!(e.display.screen.iter().filter(|p| **p).count(), 2);
}

#[test]
fn draw_past_memory_end_is_rejected() {
    let mut e = machine_with(&[0xAF, 0xF9, 0xD0, 0x01]);
    run(&mut e, 1);
    assert_eq!(e.next_opcode(), Err(EmulatorError::MemoryOutOfBounds));
    let mut e = machine_with(&[0xAF, 0xF8, 0xD0, 0x01]);
    run(&mut e, 2);
}

#[test]
fn draw_of_no_rows_anywhere() {
    let mut e = machine_with(&[0x60, 0xFF, 0xD0, 0x00]);
    run(&mut e, 2);
    assert_eq!(e.register(0xF), 0);
    assert!(e.display.screen.iter().all(|p| !p));
    let mut d = MatrixDisplay::new();
    assert!(!d.draw_sprite(200, 200, &[]));
    assert!(!d.draw_sprite(250, 3, &[1, 1, 1]));
    assert!(d.screen.iter().all(|p| !p));
}

#[test]
fn draw_value_other_than_one_keeps_pixel_set() {
    let mut d = MatrixDisplay::new();
    assert!(!d.draw_sprite(0, 0, &[2, 0, 0, 0, 0, 0, 0, 0]));
    assert!(d.screen[0]);
    assert!(!d.draw_sprite(0, 0, &[2, 0, 0, 0, 0, 0, 0, 0]));
    assert!(d.screen[0]);
    assert!(d.draw_sprite(0, 0, &[1, 0, 0, 0, 0, 0, 0, 0]));
    assert!(!d.screen[0]);
}

#[test]
fn draw_sets_collision_flag() {
    let mut e = machine_with(&[0xA2, 0x06, 0xD0, 0x01, 0xD0, 0x01, 1, 0, 1, 1, 0, 0, 0, 1]);
    run(&mut e, 2);
    assert_eq!(e.register(0xF), 0);
    run(&mut e, 1);
    assert_eq!(e.register(0xF), 1);
    assert!(e.display.screen.iter().all(|p| !p));
}

#[test]
fn write_past_memory_end_fails_untouched() {
    for len in [1usize, 2, 10, 4096] {
        let mut e = EmulatorBuilder::new().initial_memory(0xAA).build(MatrixDisplay::new());
        let program = vec![0x11u8; len];
        assert!(!e.write_memory(&program, 4096 - len + 1));
        for at in 0..4096 {
            assert_eq!(e.memory_at(at), 0xAA);
        }
    }
}

#[test]
fn write_at_pc_past_end_fails() {
    let mut e = EmulatorBuilder::new().initial_program_counter(4090).build(MatrixDisplay::new());
    assert!(!e.write_at_pc(&[1, 2, 3, 4, 5, 6, 7]));
    assert_eq!(e.memory_at(4090), 0);
    assert!(e.write_at_pc(&[1, 2, 3, 4, 5, 6]));
    assert_eq!(e.memory_at(4095), 6);
}

#[test]
fn program_too_long_is_not_built() {
    let program = vec![0u8; 4096 - 512 + 1];
    assert!(EmulatorBuilder::new().build_with_program(MatrixDisplay::new(), &program).is_none());
    let program = vec![0u8; 4096 - 512];
    assert!(EmulatorBuilder::new().build_with_program(MatrixDisplay::new(), &program).is_some());
}

#[test]
fn builder_defaults_and_overrides() {
    let e = Emulator::new(MatrixDisplay::new());
    assert_eq!(e.program_counter(), 512);
    assert_eq!(e.memory_at(0), 0);
    assert_eq!(e.address_register(), 0);
    assert_eq!(e.stack_depth(), 0);
    let e = EmulatorBuilder::new()
        .initial_memory(0x5A)
        .initial_program_counter(0x300)
        .build(MatrixDisplay::new());
    assert_eq!(e.program_counter(), 0x300);
    assert_eq!(e.memory_at(4095), 0x5A);
    assert_eq!(e.register(3), 0);
}

#[test]
fn call_then_return_restores_counter() {
    let mut program = vec![0u8; 0x20];
    program[0] = 0x22;
    program[1] = 0x10;
    program[0x10] = 0x00;
    program[0x11] = 0xEE;
    let mut e = machine_with(&program);
    run(&mut e, 1);
    assert_eq!(e.program_counter(), 0x210);
    assert_eq!(e.stack_depth(), 1);
    run(&mut e, 1);
    assert_eq!(e.program_counter(), 0x202);
    assert_eq!(e.stack_depth(), 0);
}

#[test]
fn return_with_empty_stack_fails() {
    let mut e = machine_with(&[0x00, 0xEE]);
    assert_eq!(e.next_opcode(), Err(EmulatorError::InvalidReturn));
    assert_eq!(e.program_counter(), 0x200);
}

#[test]
fn invalid_opcode_leaves_counter() {
    let mut e = machine_with(&[0xFF, 0xFF]);
    assert_eq!(e.next_opcode(), Err(EmulatorError::InvalidOpCode));
    assert_eq!(e.next_opcode(), Err(EmulatorError::InvalidOpCode));
    assert_eq!(e.program_counter(), 0x200);
}

#[test]
fn fetch_past_memory_end_fails() {
    let mut e = EmulatorBuilder::new().initial_program_counter(4095).build(MatrixDisplay::new());
    assert_eq!(e.next_opcode(), Err(EmulatorError::MemoryOutOfBounds));
    let mut e = EmulatorBuilder::new().initial_program_counter(5000).build(MatrixDisplay::new());
    assert_eq!(e.next_opcode(), Err(EmulatorError::MemoryOutOfBounds));
}

#[test]
fn unsupported_operations_are_rejected() {
    for word in [[0x01u8, 0x23], [0xE0, 0x9E], [0xE0, 0xA1], [0xF0, 0x0A], [0xF0, 0x29]] {
        let mut e = machine_with(&word);
        assert_eq!(e.next_opcode(), Err(EmulatorError::UnsupportedOpCode));
        assert_eq!(e.program_counter(), 0x200);
    }
}

#[test]
fn jumps_and_address_register() {
    let mut e = machine_with(&[0x12, 0x34]);
    run(&mut e, 1);
    assert_eq!(e.program_counter(), 0x234);
    let mut e = machine_with(&[0x60, 0x10, 0xB3, 0x00]);
    run(&mut e, 2);
    assert_eq!(e.program_counter(), 0x310);
    let mut e = machine_with(&[0x65, 0x10, 0xAF, 0xFF, 0xF5, 0x1E]);
    run(&mut e, 3);
    assert_eq!(e.address_register(), 0x100F);
}

#[test]
fn timers_are_read_and_set() {
    let mut e = machine_with(&[0x63, 0x2A, 0xF3, 0x15, 0xF3, 0x18, 0xF4, 0x07]);
    run(&mut e, 3);
    assert_eq!(e.delay_timer(), 0x2A);
    assert_eq!(e.sound_timer(), 0x2A);
    e.set_delay_timer(9);
    run(&mut e, 1);
    assert_eq!(e.register(4), 9);
    e.set_sound_timer(3);
    assert_eq!(e.sound_timer(), 3);
}

#[test]
fn store_bcd_writes_three_digits() {
    let mut e = machine_with(&[0x60, 0xFE, 0xA3, 0x00, 0xF0, 0x33]);
    run(&mut e, 3);
    assert_eq!(e.memory_at(0x300), 2);
    assert_eq!(e.memory_at(0x301), 5);
    assert_eq!(e.memory_at(0x302), 4);
    let mut e = machine_with(&[0xAF, 0xFE, 0xF0, 0x33]);
    run(&mut e, 1);
    assert_eq!(e.next_opcode(), Err(EmulatorError::MemoryOutOfBounds));
}

#[test]
fn dump_and_load_registers() {
    let mut e = machine_with(&[0x60, 0x11, 0x61, 0x22, 0x62, 0x33, 0xA3, 0x00, 0xF1, 0x55, 0xA3, 0x01, 0xF1, 0x65]);
    run(&mut e, 5);
    assert_eq!(e.memory_at(0x300), 0x11);
    assert_eq!(e.memory_at(0x301), 0x22);
    assert_eq!(e.memory_at(0x302), 0);
    run(&mut e, 2);
    assert_eq!(e.register(0), 0x22);
    assert_eq!(e.register(1), 0);
    assert_eq!(e.register(2), 0x33);
    let mut e = machine_with(&[0xAF, 0xF8, 0xFF, 0x55]);
    run(&mut e, 1);
    assert_eq!(e.next_opcode(), Err(EmulatorError::MemoryOutOfBounds));
    let mut e = machine_with(&[0xAF, 0xF8, 0xFF, 0x65]);
    run(&mut e, 1);
    assert_eq!(e.next_opcode(), Err(EmulatorError::MemoryOutOfBounds));
}

#[test]
fn random_is_masked_and_seeded() {
    let program = [0xC0, 0x0F, 0xC1, 0xF0, 0xC2, 0x00];
    let mut a = machine_with(&program);
    let mut b = machine_with(&program);
    run(&mut a, 3);
    run(&mut b, 3);
    assert_eq!(a.register(0) & 0xF0, 0);
    assert_eq!(a.register(1) & 0x0F, 0);
    assert_eq!(a.register(2), 0);
    assert_eq!(a.register(0), b.register(0));
    assert_eq!(a.register(1), b.register(1));
}

#[test]
fn rand_range_stays_in_bounds() {
    let mut r = Rand::new(12345);
    let mut s = Rand::new(12345);
    for _ in 0..1000 {
        let v = r.rand_range(5, 10);
        assert!((5..=10).contains(&v));
        assert_eq!(v, s.rand_range(5, 10));
    }
    let mut r = Rand::new(0);
    assert_eq!(r.rand_range(0, 0xFFFF_FFFF), 1013904223 >> 16);
    assert_eq!(r.rand_range(7, 7), 7);
}

#[test]
fn sample_program_scenario() {
    let program = [0x70, 0xFF, 0x73, 0xFF, 0xAF, 0xA0, 0xFF, 0x55, 0xD1, 0x21];
    let mut e = EmulatorBuilder::new()
        .build_with_program(MatrixDisplay::new(), &program)
        .unwrap();
    run(&mut e, 5);
    assert_eq!(e.register(0), 0xFF);
    assert_eq!(e.register(3), 0xFF);
    assert_eq!(e.address_register(), 0x0FA0);
    assert_eq!(e.memory_at(0x0FA0), 0xFF);
    for i in 0..64 * 32 {
        assert_eq!(e.display().screen[i], i == 0 || i == 3, "pixel {}", i);
    }
    assert_eq!(e.register(0xF), 0);
}

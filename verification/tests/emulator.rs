use chip8_core::machine::Emulator;
use chip8_core::semantics::EmuError;

const FONT: [u8; 80] = [
    0xF0, 0x90, 0x90, 0x90, 0xF0, // 0
    0x20, 0x60, 0x20, 0x20, 0x70, // 1
    0xF0, 0x10, 0xF0, 0x80, 0xF0, // 2
    0xF0, 0x10, 0xF0, 0x10, 0xF0, // 3
    0x90, 0x90, 0xF0, 0x10, 0x10, // 4
    0xF0, 0x80, 0xF0, 0x10, 0xF0, // 5
    0xF0, 0x80, 0xF0, 0x90, 0xF0, // 6
    0xF0, 0x10, 0x20, 0x40, 0x40, // 7
    0xF0, 0x90, 0xF0, 0x90, 0xF0, // 8
    0xF0, 0x90, 0xF0, 0x10, 0xF0, // 9
    0xF0, 0x90, 0xF0, 0x90, 0x90, // A
    0xE0, 0x90, 0xE0, 0x90, 0xE0, // B
    0xF0, 0x80, 0x80, 0x80, 0xF0, // C
    0xE0, 0x90, 0x90, 0x90, 0xE0, // D
    0xF0, 0x80, 0xF0, 0x80, 0xF0, // E
    0xF0, 0x80, 0xF0, 0x80, 0x80, // F
];

fn machine_with(rom: &[u8]) -> Emulator {
    let mut e = Emulator::new();
    assert_eq!(e.load_rom(&rom.to_vec()), Ok(()));
    e
}

#[test]
fn set_stores_immediate() {
    for x in 0..16u16 {
        for nn in [0x00u8, 0x01, 0x7F, 0xAB, 0xFF] {
            let op = 0x6000 | (x << 8) | nn as u16;
            let mut e = machine_with(&[(op >> 8) as u8, (op & 0xFF) as u8]);
            assert_eq!(e.tick(), Ok(()));
            assert_eq!(e.get_register(x as usize), nn);
            assert_eq!(e.get_program_counter(), 0x202);
        }
    }
}

#[test]
fn add_wraps_at_256() {
    // V A = 250, then add 10: wraps to 4.
    let mut e = machine_with(&[0x6A, 0xFA, 0x7A, 0x0A]);
    assert_eq!(e.tick(), Ok(()));
    assert_eq!(e.get_register(0xA), 250);
    assert_eq!(e.tick(), Ok(()));
    assert_eq!(e.get_register(0xA), 4);
}

#[test]
fn add_without_overflow() {
    let mut e = machine_with(&[0x63, 0x20, 0x73, 0x05]);
    assert_eq!(e.tick(), Ok(()));
    assert_eq!(e.tick(), Ok(()));
    assert_eq!(e.get_register(3), 0x25);
}

#[test]
fn copy_register() {
    let mut e = machine_with(&[0x6B, 0x2A, 0x8C, 0xB0]);
    assert_eq!(e.tick(), Ok(()));
    assert_eq!(e.tick(), Ok(()));
    assert_eq!(e.get_register(0xC), 0x2A);
}

#[test]
fn two_sets_then_add() {
    // SET V A,5 then ADD V A,3: register A ends at 8.
    let mut e = machine_with(&[0x6A, 0x05, 0x7A, 0x03]);
    assert_eq!(e.tick(), Ok(()));
    assert_eq!(e.tick(), Ok(()));
    assert_eq!(e.get_register(0xA), 8);
}

#[test]
fn jmp_sets_counter_exactly() {
    let mut e = machine_with(&[0x1A, 0xBC]);
    assert_eq!(e.tick(), Ok(()));
    assert_eq!(e.get_program_counter(), 0xABC);
}

#[test]
fn call_then_ret_resumes_after_call() {
    // CALL 0x300 at the start address; RET at 0x300.
    let mut rom = vec![0u8; 0x102];
    rom[0] = 0x23;
    rom[1] = 0x00;
    rom[0x100] = 0x00;
    rom[0x101] = 0xEE;
    let mut e = machine_with(&rom);
    assert_eq!(e.tick(), Ok(()));
    assert_eq!(e.get_program_counter(), 0x300);
    assert_eq!(e.tick(), Ok(()));
    assert_eq!(e.get_program_counter(), 0x202);
}

#[test]
fn sixteen_nested_calls_and_rets_return() {
    // Sixteen nested calls at 0x200, 0x204, ..., 0x23C, each followed at
    // its return address by a RET; the innermost RET sits at 0x240.
    let mut rom = vec![0u8; 0x42];
    for k in 0..16usize {
        let target = 0x200u16 + 4 * (k as u16) + 4;
        rom[4 * k] = 0x20 | (target >> 8) as u8;
        rom[4 * k + 1] = (target & 0xFF) as u8;
        rom[4 * k + 2] = 0x00;
        rom[4 * k + 3] = 0xEE;
    }
    rom[0x40] = 0x00;
    rom[0x41] = 0xEE;
    let mut e = machine_with(&rom);
    for _ in 0..16 {
        assert_eq!(e.tick(), Ok(()));
    }
    assert_eq!(e.get_program_counter(), 0x240);
    for _ in 0..16 {
        assert_eq!(e.tick(), Ok(()));
    }
    assert_eq!(e.get_program_counter(), 0x202);
}

#[test]
fn seventeenth_call_overflows() {
    // Seventeen nested calls with no intervening return: the seventeenth
    // finds the stack full and faults, changing nothing.
    let mut rom = vec![0u8; 0x46];
    for k in 0..17usize {
        let target = 0x200u16 + 4 * (k as u16) + 4;
        rom[4 * k] = 0x20 | (target >> 8) as u8;
        rom[4 * k + 1] = (target & 0xFF) as u8;
    }
    let mut e = machine_with(&rom);
    for _ in 0..16 {
        assert_eq!(e.tick(), Ok(()));
    }
    assert_eq!(e.get_program_counter(), 0x240);
    assert_eq!(e.tick(), Err(EmuError::StackOverflow));
    assert_eq!(e.get_program_counter(), 0x240);
}

#[test]
fn ret_on_empty_stack_underflows() {
    let mut e = machine_with(&[0x00, 0xEE]);
    assert_eq!(e.tick(), Err(EmuError::StackUnderflow));
    assert_eq!(e.get_program_counter(), 0x200);
}

#[test]
fn skip_eq_imm_taken_and_not_taken() {
    // V A = 7, then SKIP-EQ V A,7: the counter moves 4 from the skip word.
    let mut e = machine_with(&[0x6A, 0x07, 0x3A, 0x07]);
    assert_eq!(e.tick(), Ok(()));
    assert_eq!(e.tick(), Ok(()));
    assert_eq!(e.get_program_counter(), 0x206);
    // V A = 0 (fresh machine), SKIP-EQ V A,7 does not skip: it moves 2.
    let mut e2 = machine_with(&[0x3A, 0x07]);
    assert_eq!(e2.tick(), Ok(()));
    assert_eq!(e2.get_program_counter(), 0x202);
}

#[test]
fn skip_ne_imm_taken_and_not_taken() {
    let mut e = machine_with(&[0x4A, 0x07]);
    assert_eq!(e.tick(), Ok(()));
    assert_eq!(e.get_program_counter(), 0x204);
    let mut e2 = machine_with(&[0x6A, 0x07, 0x4A, 0x07]);
    assert_eq!(e2.tick(), Ok(()));
    assert_eq!(e2.tick(), Ok(()));
    assert_eq!(e2.get_program_counter(), 0x204);
}

#[test]
fn skip_eq_reg_taken_and_not_taken() {
    let mut e = machine_with(&[0x6A, 0x07, 0x6B, 0x07, 0x5A, 0xB0]);
    assert_eq!(e.tick(), Ok(()));
    assert_eq!(e.tick(), Ok(()));
    assert_eq!(e.tick(), Ok(()));
    assert_eq!(e.get_program_counter(), 0x208);
    let mut e2 = machine_with(&[0x6A, 0x07, 0x5A, 0xB0]);
    assert_eq!(e2.tick(), Ok(()));
    assert_eq!(e2.tick(), Ok(()));
    assert_eq!(e2.get_program_counter(), 0x204);
}

#[test]
fn cls_clears_every_cell() {
    let mut e = machine_with(&[0x00, 0xE0]);
    assert_eq!(e.tick(), Ok(()));
    for y in 0..32 {
        for x in 0..64 {
            assert!(!e.get_pixel(x, y));
        }
    }
    assert_eq!(e.get_program_counter(), 0x202);
}

#[test]
fn nop_only_advances_counter() {
    // Fresh memory above the font is zero, so the first word is a NOP.
    let mut e = Emulator::new();
    assert_eq!(e.tick(), Ok(()));
    assert_eq!(e.get_program_counter(), 0x202);
    for x in 0..16 {
        assert_eq!(e.get_register(x), 0);
    }
}

#[test]
fn unimplemented_opcode_reports_word_and_counter() {
    let mut e = machine_with(&[0xFA, 0x07]);
    assert_eq!(
        e.tick(),
        Err(EmuError::UnimplementedOpcode { opcode: 0xFA07, program_counter: 0x200 })
    );
    assert_eq!(e.get_program_counter(), 0x200);
}

#[test]
fn fetch_past_end_of_memory_faults() {
    // Jump to the last byte of memory: the next fetch would read past the
    // end.
    let mut e = machine_with(&[0x1F, 0xFF]);
    assert_eq!(e.tick(), Ok(()));
    assert_eq!(e.tick(), Err(EmuError::OutOfRangeAddress { address: 0xFFF }));
    assert_eq!(e.get_program_counter(), 0xFFF);
}

#[test]
fn font_table_preloaded_after_construction() {
    let e = Emulator::new();
    for i in 0..80u16 {
        assert_eq!(e.read_memory(i), Ok(FONT[i as usize]));
    }
    assert_eq!(e.read_memory(80), Ok(0));
    assert_eq!(e.get_program_counter(), 0x200);
}

#[test]
fn reset_restores_canonical_state() {
    let mut e = machine_with(&[0x6A, 0x05, 0x7A, 0x03]);
    assert_eq!(e.tick(), Ok(()));
    assert_eq!(e.tick(), Ok(()));
    e.set_delay_timer(9);
    e.set_sound_timer(9);
    e.set_key(3, true);
    e.reset();
    assert_eq!(e.get_program_counter(), 0x200);
    assert_eq!(e.get_register(0xA), 0);
    assert_eq!(e.get_delay_timer(), 0);
    assert_eq!(e.get_sound_timer(), 0);
    assert!(!e.get_key(3));
    for i in 0..80u16 {
        assert_eq!(e.read_memory(i), Ok(FONT[i as usize]));
    }
    // The program bytes are gone again.
    assert_eq!(e.read_memory(0x200), Ok(0));
    assert_eq!(e.read_memory(0x203), Ok(0));
}

#[test]
fn read_memory_out_of_range() {
    let e = Emulator::new();
    assert_eq!(e.read_memory(4096), Err(EmuError::OutOfRangeAddress { address: 4096 }));
    assert_eq!(e.read_memory(0xFFFF), Err(EmuError::OutOfRangeAddress { address: 0xFFFF }));
}

#[test]
fn load_rom_rejects_oversized_program() {
    let mut e = Emulator::new();
    assert_eq!(
        e.load_rom(&vec![0u8; 3585]),
        Err(EmuError::OutOfRangeAddress { address: 4096 })
    );
    // The largest program that fits is accepted.
    assert_eq!(e.load_rom(&vec![0u8; 3584]), Ok(()));
}

#[test]
fn key_state_is_stored() {
    let mut e = Emulator::new();
    for k in 0..16 {
        assert!(!e.get_key(k));
    }
    e.set_key(5, true);
    assert!(e.get_key(5));
    assert!(!e.get_key(4));
    e.set_key(5, false);
    assert!(!e.get_key(5));
}

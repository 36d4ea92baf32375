use vstd::prelude::*;

verus! {

/// Number of addressable bytes of machine memory.
pub const RAM_SIZE: usize = 4096;

/// Width of the monochrome framebuffer, in cells.
pub const SCREEN_WIDTH: usize = 64;

/// Height of the monochrome framebuffer, in cells.
pub const SCREEN_HEIGHT: usize = 32;

/// Number of general-purpose byte registers.
pub const NUM_REGISTERS: usize = 16;

/// Capacity of the call stack.
pub const STACK_SIZE: usize = 16;

/// Number of keys in the key-state vector.
pub const NUM_KEYS: usize = 16;

/// Address at which execution begins and at which programs are loaded.
pub const START_ADDRESS: u16 = 0x200;

/// Length of the built-in font table, preloaded at address 0.
pub const FONTSET_SIZE: usize = 80;

/// The conditions under which the machine halts instead of completing a step.
#[derive(Clone, Copy, Debug, PartialEq, Eq, Structural)]
pub enum EmuError {
    /// The decoded instruction word has no handler. Carries the raw word and
    /// the program counter at the time of the fetch.
    UnimplementedOpcode { opcode: u16, program_counter: u16 },
    /// A call was made with the call stack already at capacity.
    StackOverflow,
    /// A return was executed with the call stack empty.
    StackUnderflow,
    /// A memory access touched an address outside the memory array.
    OutOfRangeAddress { address: u16 },
}

/// Mathematical model of the whole machine state.
#[verifier::ext_equal]
pub struct EmuModel {
    pub program_counter: u16,
    pub ram: Seq<u8>,
    pub screen: Seq<bool>,
    pub v_registers: Seq<u8>,
    pub index_register: u16,
    pub stack: Seq<u16>,
    pub stack_pointer: u16,
    pub keys: Seq<bool>,
    pub delay_timer: u8,
    pub sound_timer: u8,
}

/// The structural invariant of a machine state: every fixed-size component
/// has its fixed size, and the stack depth never exceeds the capacity.
pub open spec fn wf_model(m: EmuModel) -> bool {
    &&& m.ram.len() == RAM_SIZE as int
    &&& m.screen.len() == SCREEN_WIDTH as int * SCREEN_HEIGHT as int
    &&& m.v_registers.len() == NUM_REGISTERS as int
    &&& m.stack.len() == STACK_SIZE as int
    &&& m.stack_pointer as int <= STACK_SIZE as int
    &&& m.keys.len() == NUM_KEYS as int
}

/// The fixed font table: five bytes of bitmap rows for each of the sixteen
/// hexadecimal digit glyphs.
pub open spec fn font_table() -> Seq<u8> {
    seq![
        0xF0u8, 0x90, 0x90, 0x90, 0xF0, // 0
        0x20, 0x60, 0x20, 0x20, 0x70, // 1
        0xF0, 0x10, 0xF0, 0x80, 0xF0, // 2
        0xF0, 0x10, 0xF0, 0x10, 0xF0, // 3
        0x90, 0x90, 0xF0, 0x10, 0x10, // 4
        0xF0, 0x80, 0xF0, 0x10, 0xF0, // 5
        0xF0, 0x80, 0xF0, 0x90, 0xF0, // 6
        0xF0, 0x10, 0x20, 0x40, 0x40, // 7
        0xF0, 0x90, 0xF0, 0x90, 0xF0, // 8
        0xF0, 0x90, 0xF0, 0x10, 0xF0, // 9
        0xF0, 0x90, 0xF0, 0x90, 0x90, // A
        0xE0, 0x90, 0xE0, 0x90, 0xE0, // B
        0xF0, 0x80, 0x80, 0x80, 0xF0, // C
        0xE0, 0x90, 0x90, 0x90, 0xE0, // D
        0xF0, 0x80, 0xF0, 0x80, 0xF0, // E
        0xF0, 0x80, 0xF0, 0x80, 0x80, // F
    ]
}

/// The canonical state produced by construction and by reset: the program
/// counter at the start address, the font table in low memory, and every
/// other component zeroed or cleared.
pub open spec fn canonical_model(m: EmuModel) -> bool {
    &&& m.program_counter == START_ADDRESS
    &&& m.ram.len() == RAM_SIZE as int
    &&& (forall|i: int| 0 <= i < FONTSET_SIZE as int ==> m.ram[i] == font_table()[i])
    &&& (forall|i: int| FONTSET_SIZE as int <= i < RAM_SIZE as int ==> m.ram[i] == 0)
    &&& m.screen.len() == SCREEN_WIDTH as int * SCREEN_HEIGHT as int
    &&& (forall|i: int| 0 <= i < m.screen.len() ==> !m.screen[i])
    &&& m.v_registers.len() == NUM_REGISTERS as int
    &&& (forall|i: int| 0 <= i < NUM_REGISTERS as int ==> m.v_registers[i] == 0)
    &&& m.index_register == 0
    &&& m.stack.len() == STACK_SIZE as int
    &&& (forall|i: int| 0 <= i < STACK_SIZE as int ==> m.stack[i] == 0)
    &&& m.stack_pointer == 0
    &&& m.keys.len() == NUM_KEYS as int
    &&& (forall|i: int| 0 <= i < NUM_KEYS as int ==> !m.keys[i])
    &&& m.delay_timer == 0
    &&& m.sound_timer == 0
}

/// Family selector of an instruction word: its highest nibble.
pub open spec fn op_family(op: u16) -> u16 {
    op >> 12
}

/// Register index taken from the second nibble of an instruction word.
pub open spec fn op_x(op: u16) -> int {
    ((op >> 8) & 0xF) as int
}

/// Register index taken from the third nibble of an instruction word.
pub open spec fn op_y(op: u16) -> int {
    ((op >> 4) & 0xF) as int
}

/// Eight-bit immediate taken from the low byte of an instruction word.
pub open spec fn op_nn(op: u16) -> u8 {
    (op & 0xFF) as u8
}

/// Twelve-bit address taken from the low three nibbles of an instruction word.
pub open spec fn op_nnn(op: u16) -> u16 {
    op & 0x0FFF
}

/// The decoded form of an instruction word.
pub enum Instr {
    Nop,
    Cls,
    Ret,
    Jmp { target: u16 },
    Call { target: u16 },
    SkipEqImm { x: int, nn: u8 },
    SkipNeImm { x: int, nn: u8 },
    SkipEqReg { x: int, y: int },
    SetImm { x: int, nn: u8 },
    AddImm { x: int, nn: u8 },
    CopyReg { x: int, y: int },
    Unknown,
}

/// Decoding of a sixteen-bit instruction word: the highest nibble selects
/// the family, and the remaining fields are read per family. A word that
/// matches no pattern decodes to `Unknown`.
pub open spec fn decode(op: u16) -> Instr {
    if op == 0x0000 {
        Instr::Nop
    } else if op == 0x00E0 {
        Instr::Cls
    } else if op == 0x00EE {
        Instr::Ret
    } else if op_family(op) == 1 {
        Instr::Jmp { target: op_nnn(op) }
    } else if op_family(op) == 2 {
        Instr::Call { target: op_nnn(op) }
    } else if op_family(op) == 3 {
        Instr::SkipEqImm { x: op_x(op), nn: op_nn(op) }
    } else if op_family(op) == 4 {
        Instr::SkipNeImm { x: op_x(op), nn: op_nn(op) }
    } else if op_family(op) == 5 && op & 0xF == 0 {
        Instr::SkipEqReg { x: op_x(op), y: op_y(op) }
    } else if op_family(op) == 6 {
        Instr::SetImm { x: op_x(op), nn: op_nn(op) }
    } else if op_family(op) == 7 {
        Instr::AddImm { x: op_x(op), nn: op_nn(op) }
    } else if op_family(op) == 8 && op & 0xF == 0 {
        Instr::CopyReg { x: op_x(op), y: op_y(op) }
    } else {
        Instr::Unknown
    }
}

/// Byte addition modulo 256, as the add-immediate instruction performs it.
pub open spec fn wrap_add(a: u8, b: u8) -> u8 {
    ((a + b) % 256) as u8
}

/// A timer value after one timer step: decremented, flooring at zero.
pub open spec fn dec_floor(t: u8) -> u8 {
    if t > 0 {
        (t - 1) as u8
    } else {
        0
    }
}

/// Whether both bytes of the instruction word at the program counter lie
/// inside memory, so that a fetch can succeed.
pub open spec fn fetch_ok(m: EmuModel) -> bool {
    m.program_counter as int + 1 < RAM_SIZE as int
}

/// The instruction word at the program counter, combined big-endian.
pub open spec fn opcode_at(m: EmuModel) -> u16 {
    ((m.ram[m.program_counter as int] as u16) << 8) | (m.ram[m.program_counter as int + 1] as u16)
}

/// What one instruction step yields: either the next machine state, or the
/// error that halts the machine, leaving its state as it was.
#[verifier::ext_equal]
pub enum StepOutcome {
    Advance { next: EmuModel },
    Fault { cause: EmuError },
}

/// The effect of executing one already-fetched instruction word `op` on the
/// state `m`, whose program counter still points at the fetched word. The
/// counter is advanced past the word before the instruction acts, so jump
/// and call targets are absolute.
pub open spec fn apply_instr(m: EmuModel, op: u16) -> StepOutcome {
    let pc0 = m.program_counter;
    let next_pc = (pc0 + 2) as u16;
    let m1 = EmuModel { program_counter: next_pc, ..m };
    match decode(op) {
        Instr::Nop => StepOutcome::Advance { next: m1 },
        Instr::Cls => StepOutcome::Advance {
            next: EmuModel { screen: Seq::new(m.screen.len(), |i: int| false), ..m1 },
        },
        Instr::Ret => {
            if m.stack_pointer == 0 {
                StepOutcome::Fault { cause: EmuError::StackUnderflow }
            } else {
                StepOutcome::Advance {
                    next: EmuModel {
                        program_counter: m.stack[m.stack_pointer as int - 1],
                        stack_pointer: (m.stack_pointer - 1) as u16,
                        ..m
                    },
                }
            }
        },
        Instr::Jmp { target } => StepOutcome::Advance {
            next: EmuModel { program_counter: target, ..m },
        },
        Instr::Call { target } => {
            if m.stack_pointer as int >= STACK_SIZE as int {
                StepOutcome::Fault { cause: EmuError::StackOverflow }
            } else {
                StepOutcome::Advance {
                    next: EmuModel {
                        program_counter: target,
                        stack: m.stack.update(m.stack_pointer as int, next_pc),
                        stack_pointer: (m.stack_pointer + 1) as u16,
                        ..m
                    },
                }
            }
        },
        Instr::SkipEqImm { x, nn } => StepOutcome::Advance {
            next: EmuModel {
                program_counter: if m.v_registers[x] == nn {
                    (next_pc + 2) as u16
                } else {
                    next_pc
                },
                ..m
            },
        },
        Instr::SkipNeImm { x, nn } => StepOutcome::Advance {
            next: EmuModel {
                program_counter: if m.v_registers[x] != nn {
                    (next_pc + 2) as u16
                } else {
                    next_pc
                },
                ..m
            },
        },
        Instr::SkipEqReg { x, y } => StepOutcome::Advance {
            next: EmuModel {
                program_counter: if m.v_registers[x] == m.v_registers[y] {
                    (next_pc + 2) as u16
                } else {
                    next_pc
                },
                ..m
            },
        },
        Instr::SetImm { x, nn } => StepOutcome::Advance {
            next: EmuModel { v_registers: m.v_registers.update(x, nn), ..m1 },
        },
        Instr::AddImm { x, nn } => StepOutcome::Advance {
            next: EmuModel {
                v_registers: m.v_registers.update(x, wrap_add(m.v_registers[x], nn)),
                ..m1
            },
        },
        Instr::CopyReg { x, y } => StepOutcome::Advance {
            next: EmuModel { v_registers: m.v_registers.update(x, m.v_registers[y]), ..m1 },
        },
        Instr::Unknown => StepOutcome::Fault {
            cause: EmuError::UnimplementedOpcode { opcode: op, program_counter: pc0 },
        },
    }
}

/// One full fetch-decode-execute step on the state `m`: a fetch that would
/// read past the end of memory faults, and otherwise the fetched word acts
/// as `apply_instr` says.
pub open spec fn spec_step(m: EmuModel) -> StepOutcome {
    if !fetch_ok(m) {
        StepOutcome::Fault { cause: EmuError::OutOfRangeAddress { address: m.program_counter } }
    } else {
        apply_instr(m, opcode_at(m))
    }
}

} // verus!

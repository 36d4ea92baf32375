use vstd::prelude::*;

use crate::semantics::{
    EmuError, EmuModel, StepOutcome, apply_instr, canonical_model, dec_floor, fetch_ok,
    font_table, opcode_at, spec_step, wf_model, FONTSET_SIZE, NUM_KEYS, NUM_REGISTERS,
    RAM_SIZE, SCREEN_HEIGHT, SCREEN_WIDTH, STACK_SIZE, START_ADDRESS,
};

verus! {

/// One isolated machine: program counter, memory, framebuffer, registers,
/// call stack, key state and the two timers.
pub struct Emulator {
    program_counter: u16,
    ram: Vec<u8>,
    screen_buffer: Vec<bool>,
    v_registers: Vec<u8>,
    index_register: u16,
    stack: Vec<u16>,
    stack_pointer: u16,
    keys: Vec<bool>,
    delay_timer: u8,
    sound_timer: u8,
}

impl View for Emulator {
    type V = EmuModel;

    closed spec fn view(&self) -> EmuModel {
        EmuModel {
            program_counter: self.program_counter,
            ram: self.ram@,
            screen: self.screen_buffer@,
            v_registers: self.v_registers@,
            index_register: self.index_register,
            stack: self.stack@,
            stack_pointer: self.stack_pointer,
            keys: self.keys@,
            delay_timer: self.delay_timer,
            sound_timer: self.sound_timer,
        }
    }
}

/// A vector holding `n` copies of `value`.
fn filled<T: Copy>(n: usize, value: T) -> (r: Vec<T>)
    ensures
        r@.len() == n as int,
        forall|i: int| 0 <= i < n as int ==> r@[i] == value,
{
    let mut v: Vec<T> = Vec::new();
    while v.len() < n
        invariant
            v@.len() <= n as int,
            forall|i: int| 0 <= i < v@.len() ==> v@[i] == value,
        decreases n as int - v@.len(),
    {
        v.push(value);
    }
    v
}

/// The font table as bytes, in the order `font_table` gives them.
fn font_bytes() -> (r: Vec<u8>)
    ensures
        r@ == font_table(),
{
    let mut v: Vec<u8> = Vec::new();
    v.push(0xF0); v.push(0x90); v.push(0x90); v.push(0x90); v.push(0xF0);
    v.push(0x20); v.push(0x60); v.push(0x20); v.push(0x20); v.push(0x70);
    v.push(0xF0); v.push(0x10); v.push(0xF0); v.push(0x80); v.push(0xF0);
    v.push(0xF0); v.push(0x10); v.push(0xF0); v.push(0x10); v.push(0xF0);
    v.push(0x90); v.push(0x90); v.push(0xF0); v.push(0x10); v.push(0x10);
    v.push(0xF0); v.push(0x80); v.push(0xF0); v.push(0x10); v.push(0xF0);
    v.push(0xF0); v.push(0x80); v.push(0xF0); v.push(0x90); v.push(0xF0);
    v.push(0xF0); v.push(0x10); v.push(0x20); v.push(0x40); v.push(0x40);
    v.push(0xF0); v.push(0x90); v.push(0xF0); v.push(0x90); v.push(0xF0);
    v.push(0xF0); v.push(0x90); v.push(0xF0); v.push(0x10); v.push(0xF0);
    v.push(0xF0); v.push(0x90); v.push(0xF0); v.push(0x90); v.push(0x90);
    v.push(0xE0); v.push(0x90); v.push(0xE0); v.push(0x90); v.push(0xE0);
    v.push(0xF0); v.push(0x80); v.push(0x80); v.push(0x80); v.push(0xF0);
    v.push(0xE0); v.push(0x90); v.push(0x90); v.push(0x90); v.push(0xE0);
    v.push(0xF0); v.push(0x80); v.push(0xF0); v.push(0x80); v.push(0xF0);
    v.push(0xF0); v.push(0x80); v.push(0xF0); v.push(0x80); v.push(0x80);
    v
}

/// Memory in its canonical shape: the font table in the lowest addresses,
/// zero everywhere above it.
fn canonical_ram() -> (r: Vec<u8>)
    ensures
        r@.len() == RAM_SIZE as int,
        forall|i: int| 0 <= i < FONTSET_SIZE as int ==> r@[i] == font_table()[i],
        forall|i: int| FONTSET_SIZE as int <= i < RAM_SIZE as int ==> r@[i] == 0,
{
    let mut ram = font_bytes();
    proof {
        assert(font_table().len() == FONTSET_SIZE as int);
    }
    while ram.len() < RAM_SIZE
        invariant
            FONTSET_SIZE as int <= ram@.len() <= RAM_SIZE as int,
            forall|i: int| 0 <= i < FONTSET_SIZE as int ==> ram@[i] == font_table()[i],
            forall|i: int| FONTSET_SIZE as int <= i < ram@.len() ==> ram@[i] == 0,
        decreases RAM_SIZE as int - ram@.len(),
    {
        ram.push(0);
    }
    ram
}

impl Emulator {
    /// The structural invariant: every component has its fixed size and the
    /// stack depth is within the capacity.
    pub open spec fn wf(&self) -> bool {
        wf_model(self@)
    }

    /// A new machine in the canonical state: program counter at the start
    /// address, font table preloaded, everything else zeroed.
    pub fn new() -> (r: Emulator)
        ensures
            r.wf(),
            canonical_model(r@),
    {
        Emulator {
            program_counter: START_ADDRESS,
            ram: canonical_ram(),
            screen_buffer: filled(SCREEN_WIDTH * SCREEN_HEIGHT, false),
            v_registers: filled(NUM_REGISTERS, 0u8),
            index_register: 0,
            stack: filled(STACK_SIZE, 0u16),
            keys: filled(NUM_KEYS, false),
            stack_pointer: 0,
            delay_timer: 0,
            sound_timer: 0,
        }
    }

    /// Restores the machine to exactly the state construction gives,
    /// whatever it held before.
    pub fn reset(&mut self)
        ensures
            final(self).wf(),
            canonical_model(final(self)@),
    {
        *self = Emulator::new();
    }

    /// Saves a return address on the call stack; a push at full depth is a
    /// stack-overflow error and changes nothing.
    fn push(&mut self, value: u16) -> (r: Result<(), EmuError>)
        requires
            old(self).wf(),
        ensures
            final(self).wf(),
            (old(self)@.stack_pointer as int) < STACK_SIZE as int ==> r == Ok::<(), EmuError>(())
                && final(self)@ =~= (EmuModel {
                    stack: old(self)@.stack.update(old(self)@.stack_pointer as int, value),
                    stack_pointer: (old(self)@.stack_pointer + 1) as u16,
                    ..old(self)@
                }),
            old(self)@.stack_pointer as int >= STACK_SIZE as int ==> r == Err::<(), EmuError>(
                EmuError::StackOverflow,
            ) && final(self)@ =~= old(self)@,
    {
        if self.stack_pointer as usize >= STACK_SIZE {
            return Err(EmuError::StackOverflow);
        }
        self.stack[self.stack_pointer as usize] = value;
        self.stack_pointer = self.stack_pointer + 1;
        Ok(())
    }

    /// Takes the most recently saved return address off the call stack; a
    /// pop at zero depth is a stack-underflow error and changes nothing.
    fn pop(&mut self) -> (r: Result<u16, EmuError>)
        requires
            old(self).wf(),
        ensures
            final(self).wf(),
            (old(self)@.stack_pointer as int) > 0 ==> r == Ok::<u16, EmuError>(
                old(self)@.stack[old(self)@.stack_pointer as int - 1],
            ) && final(self)@ =~= (EmuModel {
                stack_pointer: (old(self)@.stack_pointer - 1) as u16,
                ..old(self)@
            }),
            old(self)@.stack_pointer == 0 ==> r == Err::<u16, EmuError>(EmuError::StackUnderflow)
                && final(self)@ =~= old(self)@,
    {
        if self.stack_pointer == 0 {
            return Err(EmuError::StackUnderflow);
        }
        self.stack_pointer = self.stack_pointer - 1;
        Ok(self.stack[self.stack_pointer as usize])
    }

    /// Sets every framebuffer cell to false, leaving all else as it was.
    fn clear_screen(&mut self)
        requires
            old(self).wf(),
        ensures
            final(self).wf(),
            final(self)@ =~= (EmuModel {
                screen: Seq::new(old(self)@.screen.len(), |i: int| false),
                ..old(self)@
            }),
    {
        let ghost pre = self@;
        let mut i: usize = 0;
        while i < self.screen_buffer.len()
            invariant
                i as int <= self@.screen.len(),
                self@.screen.len() == pre.screen.len(),
                forall|j: int| 0 <= j < i as int ==> !self@.screen[j],
                self@ =~= (EmuModel { screen: self@.screen, ..pre }),
            decreases self@.screen.len() - i as int,
        {
            self.screen_buffer[i] = false;
            i = i + 1;
        }
        proof {
            assert(self@.screen =~= Seq::new(pre.screen.len(), |j: int| false));
        }
    }

    /// Reads the two bytes at the program counter and combines them
    /// big-endian into an instruction word, without changing any state; a
    /// fetch that would read past the end of memory is an
    /// out-of-range-address error naming the program counter.
    fn fetch(&self) -> (r: Result<u16, EmuError>)
        requires
            self.wf(),
        ensures
            fetch_ok(self@) ==> r == Ok::<u16, EmuError>(opcode_at(self@)),
            !fetch_ok(self@) ==> r == Err::<u16, EmuError>(
                EmuError::OutOfRangeAddress { address: self@.program_counter },
            ),
    {
        let pc = self.program_counter as usize;
        if pc + 1 >= RAM_SIZE {
            return Err(EmuError::OutOfRangeAddress { address: self.program_counter });
        }
        let hi = self.ram[pc] as u16;
        let lo = self.ram[pc + 1] as u16;
        Ok((hi << 8) | lo)
    }

    /// Advances the program counter past the fetched word and mutates the
    /// state as the decoded instruction demands, exactly as `apply_instr`
    /// says; on a fault nothing changes.
    fn execute(&mut self, opcode: u16) -> (r: Result<(), EmuError>)
        requires
            old(self).wf(),
            old(self)@.program_counter as int + 2 <= RAM_SIZE as int,
        ensures
            final(self).wf(),
            (apply_instr(old(self)@, opcode) matches StepOutcome::Advance { next } ==> r == Ok::<
                (),
                EmuError,
            >(()) && final(self)@ =~= next),
            (apply_instr(old(self)@, opcode) matches StepOutcome::Fault { cause } ==> r == Err::<
                (),
                EmuError,
            >(cause) && final(self)@ =~= old(self)@),
    {
        let pc0 = self.program_counter;
        let next_pc = pc0 + 2;
        let family = opcode >> 12;
        let x = ((opcode >> 8) & 0xF) as usize;
        let y = ((opcode >> 4) & 0xF) as usize;
        let nn = (opcode & 0xFF) as u8;
        let nnn = opcode & 0x0FFF;
        proof {
            assert((opcode >> 8) & 0xF < 16 && (opcode >> 4) & 0xF < 16) by (bit_vector);
        }
        if opcode == 0x0000 {
            // NOP: nothing but the already advanced counter.
            self.program_counter = next_pc;
            Ok(())
        } else if opcode == 0x00E0 {
            // CLS
            self.clear_screen();
            self.program_counter = next_pc;
            Ok(())
        } else if opcode == 0x00EE {
            // RET
            match self.pop() {
                Ok(return_address) => {
                    self.program_counter = return_address;
                    Ok(())
                },
                Err(e) => Err(e),
            }
        } else if family == 1 {
            // JMP nnn: absolute, overriding the advanced counter.
            self.program_counter = nnn;
            Ok(())
        } else if family == 2 {
            // CALL nnn: save the post-fetch counter, then jump.
            match self.push(next_pc) {
                Ok(()) => {
                    self.program_counter = nnn;
                    Ok(())
                },
                Err(e) => Err(e),
            }
        } else if family == 3 {
            // SKIP-EQ Vx,nn
            if self.v_registers[x] == nn {
                self.program_counter = next_pc + 2;
            } else {
                self.program_counter = next_pc;
            }
            Ok(())
        } else if family == 4 {
            // SKIP-NEQ Vx,nn
            if self.v_registers[x] != nn {
                self.program_counter = next_pc + 2;
            } else {
                self.program_counter = next_pc;
            }
            Ok(())
        } else if family == 5 && opcode & 0xF == 0 {
            // SKIP-EQ Vx,Vy
            if self.v_registers[x] == self.v_registers[y] {
                self.program_counter = next_pc + 2;
            } else {
                self.program_counter = next_pc;
            }
            Ok(())
        } else if family == 6 {
            // SET Vx,nn
            self.v_registers[x] = nn;
            self.program_counter = next_pc;
            Ok(())
        } else if family == 7 {
            // ADD Vx,nn: wrap-around addition, never a fault.
            let sum = self.v_registers[x] as u16 + nn as u16;
            self.v_registers[x] = (sum % 256) as u8;
            self.program_counter = next_pc;
            Ok(())
        } else if family == 8 && opcode & 0xF == 0 {
            // COPY Vx,Vy
            self.v_registers[x] = self.v_registers[y];
            self.program_counter = next_pc;
            Ok(())
        } else {
            Err(EmuError::UnimplementedOpcode { opcode, program_counter: pc0 })
        }
    }

    /// One fetch-decode-execute cycle, exactly as `spec_step` says of the
    /// machine's state: on success the state becomes the stepped state; on
    /// an error nothing changes and the error names what went wrong.
    pub fn tick(&mut self) -> (r: Result<(), EmuError>)
        requires
            old(self).wf(),
        ensures
            final(self).wf(),
            (spec_step(old(self)@) matches StepOutcome::Advance { next } ==> r == Ok::<
                (),
                EmuError,
            >(()) && final(self)@ =~= next),
            (spec_step(old(self)@) matches StepOutcome::Fault { cause } ==> r == Err::<
                (),
                EmuError,
            >(cause) && final(self)@ =~= old(self)@),
    {
        match self.fetch() {
            Ok(opcode) => self.execute(opcode),
            Err(e) => Err(e),
        }
    }

    /// Writes program bytes into memory starting at the fixed start address,
    /// as the ROM-loader collaborator does before execution begins; a
    /// program that would run past the end of memory is an
    /// out-of-range-address error naming the first address past the end,
    /// and changes nothing.
    pub fn load_rom(&mut self, rom: &Vec<u8>) -> (r: Result<(), EmuError>)
        requires
            old(self).wf(),
        ensures
            final(self).wf(),
            rom@.len() <= RAM_SIZE as int - START_ADDRESS as int ==> {
                &&& r == Ok::<(), EmuError>(())
                &&& final(self)@.ram.len() == RAM_SIZE as int
                &&& (forall|j: int|
                    0 <= j < START_ADDRESS as int ==> final(self)@.ram[j] == old(self)@.ram[j])
                &&& (forall|j: int|
                    0 <= j < rom@.len() ==> final(self)@.ram[START_ADDRESS as int + j] == rom@[j])
                &&& (forall|j: int|
                    START_ADDRESS as int + rom@.len() <= j < RAM_SIZE as int
                        ==> final(self)@.ram[j] == old(self)@.ram[j])
                &&& final(self)@ =~= (EmuModel { ram: final(self)@.ram, ..old(self)@ })
            },
            rom@.len() > RAM_SIZE as int - START_ADDRESS as int ==> r == Err::<(), EmuError>(
                EmuError::OutOfRangeAddress { address: RAM_SIZE as u16 },
            ) && final(self)@ =~= old(self)@,
    {
        if rom.len() > RAM_SIZE - START_ADDRESS as usize {
            return Err(EmuError::OutOfRangeAddress { address: RAM_SIZE as u16 });
        }
        let ghost pre = self@;
        let mut i: usize = 0;
        while i < rom.len()
            invariant
                i as int <= rom@.len(),
                rom@.len() <= RAM_SIZE as int - START_ADDRESS as int,
                self@.ram.len() == RAM_SIZE as int,
                pre.ram.len() == RAM_SIZE as int,
                forall|j: int| 0 <= j < START_ADDRESS as int ==> self@.ram[j] == pre.ram[j],
                forall|j: int|
                    0 <= j < i as int ==> self@.ram[START_ADDRESS as int + j] == rom@[j],
                forall|j: int|
                    START_ADDRESS as int + i as int <= j < RAM_SIZE as int ==> self@.ram[j]
                        == pre.ram[j],
                self@ =~= (EmuModel { ram: self@.ram, ..pre }),
            decreases rom@.len() - i as int,
        {
            self.ram[START_ADDRESS as usize + i] = rom[i];
            i = i + 1;
        }
        Ok(())
    }

    /// The value of general-purpose register `x`.
    pub fn get_register(&self, x: usize) -> (r: u8)
        requires
            self.wf(),
            x < NUM_REGISTERS,
        ensures
            r == self@.v_registers[x as int],
    {
        self.v_registers[x]
    }

    /// The address of the next instruction to fetch.
    pub fn get_program_counter(&self) -> (r: u16)
        ensures
            r == self@.program_counter,
    {
        self.program_counter
    }

    /// The framebuffer cell in column `x` of row `y`, in the row-major,
    /// width-first layout the display collaborator renders.
    pub fn get_pixel(&self, x: usize, y: usize) -> (r: bool)
        requires
            self.wf(),
            x < SCREEN_WIDTH,
            y < SCREEN_HEIGHT,
        ensures
            r == self@.screen[y as int * SCREEN_WIDTH as int + x as int],
    {
        self.screen_buffer[y * SCREEN_WIDTH + x]
    }

    /// The byte at `address`; an address outside memory is an
    /// out-of-range-address error naming it.
    pub fn read_memory(&self, address: u16) -> (r: Result<u8, EmuError>)
        requires
            self.wf(),
        ensures
            (address as int) < RAM_SIZE as int ==> r == Ok::<u8, EmuError>(
                self@.ram[address as int],
            ),
            address as int >= RAM_SIZE as int ==> r == Err::<u8, EmuError>(
                EmuError::OutOfRangeAddress { address },
            ),
    {
        if (address as usize) < RAM_SIZE {
            Ok(self.ram[address as usize])
        } else {
            Err(EmuError::OutOfRangeAddress { address })
        }
    }

    /// Marks key `key` pressed or released, as the input collaborator does;
    /// nothing else changes.
    pub fn set_key(&mut self, key: usize, pressed: bool)
        requires
            old(self).wf(),
            key < NUM_KEYS,
        ensures
            final(self).wf(),
            final(self)@ =~= (EmuModel {
                keys: old(self)@.keys.update(key as int, pressed),
                ..old(self)@
            }),
    {
        self.keys[key] = pressed;
    }

    /// Whether key `key` is currently marked pressed.
    pub fn get_key(&self, key: usize) -> (r: bool)
        requires
            self.wf(),
            key < NUM_KEYS,
        ensures
            r == self@.keys[key as int],
    {
        self.keys[key]
    }

    /// Sets the delay timer, as a host collaborator does; nothing else
    /// changes.
    pub fn set_delay_timer(&mut self, value: u8)
        ensures
            final(self)@ =~= (EmuModel { delay_timer: value, ..old(self)@ }),
            old(self).wf() ==> final(self).wf(),
    {
        self.delay_timer = value;
    }

    /// The current delay timer value.
    pub fn get_delay_timer(&self) -> (r: u8)
        ensures
            r == self@.delay_timer,
    {
        self.delay_timer
    }

    /// Sets the sound timer, as a host collaborator does; nothing else
    /// changes.
    pub fn set_sound_timer(&mut self, value: u8)
        ensures
            final(self)@ =~= (EmuModel { sound_timer: value, ..old(self)@ }),
            old(self).wf() ==> final(self).wf(),
    {
        self.sound_timer = value;
    }

    /// The current sound timer value.
    pub fn get_sound_timer(&self) -> (r: u8)
        ensures
            r == self@.sound_timer,
    {
        self.sound_timer
    }

    /// One step of the timer clock, independent of the instruction clock:
    /// each timer above zero is decremented, neither goes below zero, and
    /// the result is true exactly when the sound timer was one before the
    /// call - the one-shot audible-cue edge.
    pub fn tick_timer(&mut self) -> (beep: bool)
        requires
            old(self).wf(),
        ensures
            final(self).wf(),
            final(self)@ =~= (EmuModel {
                delay_timer: dec_floor(old(self)@.delay_timer),
                sound_timer: dec_floor(old(self)@.sound_timer),
                ..old(self)@
            }),
            beep == (old(self)@.sound_timer == 1),
    {
        if self.delay_timer > 0 {
            self.delay_timer = self.delay_timer - 1;
        }
        let mut beep = false;
        if self.sound_timer > 0 {
            if self.sound_timer == 1 {
                beep = true;
            }
            self.sound_timer = self.sound_timer - 1;
        }
        beep
    }
}

} // verus!

use vstd::prelude::*;
use crate::display::{blank, collides, drawn, sprite_fits, ChipDisplay, SCREEN_HEIGHT, SCREEN_WIDTH};
use crate::opcode::{decode_spec, lemma_decode_then_encode, AddressRegister, OpCode};
use crate::rand::{next_state, range_value, Rand};

verus! {

/// Number of addressable bytes of memory.
pub const MEMORY_SIZE: usize = 4096;

/// Number of general registers.
pub const REGISTER_COUNT: usize = 16;

/// The register that arithmetic, shifts and drawing write their flag to.
pub const FLAG_REGISTER: usize = 15;

/// Where programs are loaded and run from unless configured otherwise.
pub const PROGRAM_START: usize = 512;

/// Why a step failed.
#[derive(Debug, Clone, Copy, PartialEq, Eq, Structural)]
pub enum EmulatorError {
    /// A read or write fell outside memory, or a sprite outside the screen.
    MemoryOutOfBounds,
    /// The fetched word encodes no operation.
    InvalidOpCode,
    /// A return was executed with an empty call stack.
    InvalidReturn,
    /// The operation needs a facility the engine does not have: machine code,
    /// a keyboard or a font.
    UnsupportedOpCode,
}

/// The machine state of an emulator, apart from its display.
pub struct MachineState {
    pub registers: Seq<u8>,
    pub address_register: u16,
    pub memory: Seq<u8>,
    pub delay_timer: u8,
    pub sound_timer: u8,
    pub program_counter: usize,
    pub stack: Seq<usize>,
    pub rng: u32,
}

impl MachineState {
    /// Sixteen registers and the whole of memory are present.
    pub open spec fn well_formed(self) -> bool {
        self.registers.len() == REGISTER_COUNT && self.memory.len() == MEMORY_SIZE
    }

    /// Value of register `r`.
    pub open spec fn reg(self, r: u8) -> u8 {
        self.registers[r as int]
    }

    /// The state with register `r` set to `v`.
    pub open spec fn set_reg(self, r: u8, v: u8) -> MachineState {
        MachineState { registers: self.registers.update(r as int, v), ..self }
    }

    /// The state with the flag register set to `flag`, then register `r` to `v`.
    pub open spec fn set_flag_then_reg(self, flag: u8, r: u8, v: u8) -> MachineState {
        self.set_reg(FLAG_REGISTER as u8, flag).set_reg(r, v)
    }

    /// The state with the program counter at `pc`.
    pub open spec fn jump(self, pc: usize) -> MachineState {
        MachineState { program_counter: pc, ..self }
    }

    /// The state that skips the next instruction when `cond` holds.
    pub open spec fn skip_if(self, cond: bool) -> MachineState {
        if cond {
            self.jump((self.program_counter + 2) as usize)
        } else {
            self
        }
    }
}

/// `memory` with `bytes` written from `at` on.
pub open spec fn written(memory: Seq<u8>, at: int, bytes: Seq<u8>) -> Seq<u8> {
    Seq::new(
        memory.len(),
        |i: int|
            if at <= i < at + bytes.len() {
                bytes[i - at]
            } else {
                memory[i]
            },
    )
}

/// The flag of an addition: 1 when it carries out of 8 bits.
pub open spec fn add_flag(a: u8, b: u8) -> u8 {
    if a + b > 255 { 1 } else { 0 }
}

/// The flag of `a - b`: 1 when it does not borrow.
pub open spec fn sub_flag(a: u8, b: u8) -> u8 {
    if a >= b { 1 } else { 0 }
}

/// `a + b` modulo 256.
pub open spec fn wrapped_add(a: u8, b: u8) -> u8 {
    ((a + b) % 256) as u8
}

/// `a - b` modulo 256.
pub open spec fn wrapped_sub(a: u8, b: u8) -> u8 {
    ((a - b + 256) % 256) as u8
}

/// The outcome of executing `op` in state `s`, whose program counter is already
/// past the instruction, with the display showing `pixels`.
pub open spec fn execute_spec(s: MachineState, op: OpCode, pixels: Seq<bool>) -> Result<
    (MachineState, Seq<bool>),
    EmulatorError,
> {
    let same = pixels;
    match op {
        OpCode::Return => if s.stack.len() == 0 {
            Err(EmulatorError::InvalidReturn)
        } else {
            Ok(
                (
                    MachineState {
                        program_counter: s.stack.last(),
                        stack: s.stack.drop_last(),
                        ..s
                    },
                    same,
                ),
            )
        },
        OpCode::DisplayClear => Ok((s, blank(pixels.len()))),
        OpCode::Jump(a) => Ok((s.jump(a as usize), same)),
        OpCode::CallSubroutine(a) => Ok(
            (
                MachineState {
                    program_counter: a as usize,
                    stack: s.stack.push(s.program_counter),
                    ..s
                },
                same,
            ),
        ),
        OpCode::CompareEqConst(x, k) => Ok((s.skip_if(s.reg(x) == k), same)),
        OpCode::CompareNotEqConst(x, k) => Ok((s.skip_if(s.reg(x) != k), same)),
        OpCode::CompareEq(x, y) => Ok((s.skip_if(s.reg(x) == s.reg(y)), same)),
        OpCode::CompareNotEq(x, y) => Ok((s.skip_if(s.reg(x) != s.reg(y)), same)),
        OpCode::SetRegisterConst(x, k) => Ok((s.set_reg(x, k), same)),
        OpCode::AddRegisterConst(x, k) => Ok((s.set_reg(x, wrapped_add(s.reg(x), k)), same)),
        OpCode::SetRegister(x, y) => Ok((s.set_reg(x, s.reg(y)), same)),
        OpCode::Or(x, y) => Ok((s.set_reg(x, s.reg(x) | s.reg(y)), same)),
        OpCode::And(x, y) => Ok((s.set_reg(x, s.reg(x) & s.reg(y)), same)),
        OpCode::Xor(x, y) => Ok((s.set_reg(x, s.reg(x) ^ s.reg(y)), same)),
        OpCode::Add(x, y) => Ok(
            (
                s.set_flag_then_reg(
                    add_flag(s.reg(x), s.reg(y)),
                    x,
                    wrapped_add(s.reg(x), s.reg(y)),
                ),
                same,
            ),
        ),
        OpCode::Sub(x, y) => Ok(
            (
                s.set_flag_then_reg(
                    sub_flag(s.reg(x), s.reg(y)),
                    x,
                    wrapped_sub(s.reg(x), s.reg(y)),
                ),
                same,
            ),
        ),
        OpCode::SubFrom(x, y) => Ok(
            (
                s.set_flag_then_reg(
                    sub_flag(s.reg(y), s.reg(x)),
                    x,
                    wrapped_sub(s.reg(y), s.reg(x)),
                ),
                same,
            ),
        ),
        OpCode::ShiftRight(x) => Ok(
            (s.set_flag_then_reg(s.reg(x) % 2, x, s.reg(x) / 2), same),
        ),
        OpCode::ShiftLeft(x) => Ok(
            (s.set_flag_then_reg(s.reg(x) / 128, x, ((s.reg(x) * 2) % 256) as u8), same),
        ),
        OpCode::SetAddressRegisterConst(a) => Ok(
            (MachineState { address_register: a, ..s }, same),
        ),
        OpCode::JumpOffset(a) => Ok((s.jump((a + s.reg(0)) as usize), same)),
        OpCode::Random(x, mask) => Ok(
            (
                MachineState { rng: next_state(s.rng), ..s }.set_reg(
                    x,
                    (range_value(s.rng, 0, 255) as u8) & mask,
                ),
                same,
            ),
        ),
        OpCode::Draw(x, y, height) => {
            let at = s.address_register as int;
            let len = 8 * height;
            if at + len > MEMORY_SIZE || (height > 0 && !sprite_fits(s.reg(x), s.reg(y), len as nat)) {
                Err(EmulatorError::MemoryOutOfBounds)
            } else {
                let sprite = s.memory.subrange(at, at + len);
                let flip = collides(pixels, s.reg(x), s.reg(y), sprite);
                Ok(
                    (
                        s.set_reg(FLAG_REGISTER as u8, if flip { 1 } else { 0 }),
                        drawn(pixels, s.reg(x), s.reg(y), sprite),
                    ),
                )
            }
        },
        OpCode::GetDelayTimer(x) => Ok((s.set_reg(x, s.delay_timer), same)),
        OpCode::SetDelayTimer(x) => Ok((MachineState { delay_timer: s.reg(x), ..s }, same)),
        OpCode::SetSoundTimer(x) => Ok((MachineState { sound_timer: s.reg(x), ..s }, same)),
        OpCode::AddAddressRegister(x) => Ok(
            (
                MachineState {
                    address_register: ((s.address_register + s.reg(x)) % 0x1_0000) as u16,
                    ..s
                },
                same,
            ),
        ),
        OpCode::StoreBCD(x) => {
            let at = s.address_register as int;
            let v = s.reg(x);
            if at + 3 > MEMORY_SIZE {
                Err(EmulatorError::MemoryOutOfBounds)
            } else {
                Ok(
                    (
                        MachineState {
                            memory: written(
                                s.memory,
                                at,
                                seq![(v / 100) as u8, ((v % 100) / 10) as u8, (v % 10) as u8],
                            ),
                            ..s
                        },
                        same,
                    ),
                )
            }
        },
        OpCode::DumpRegisters(x) => {
            let at = s.address_register as int;
            if at + x + 1 > MEMORY_SIZE {
                Err(EmulatorError::MemoryOutOfBounds)
            } else {
                Ok(
                    (
                        MachineState {
                            memory: written(s.memory, at, s.registers.subrange(0, x + 1)),
                            ..s
                        },
                        same,
                    ),
                )
            }
        },
        OpCode::LoadRegisters(x) => {
            let at = s.address_register as int;
            if at + x + 1 > MEMORY_SIZE {
                Err(EmulatorError::MemoryOutOfBounds)
            } else {
                Ok(
                    (
                        MachineState {
                            registers: written(s.registers, 0, s.memory.subrange(at, at + x + 1)),
                            ..s
                        },
                        same,
                    ),
                )
            }
        },
        OpCode::CallMachineCode(_) => Err(EmulatorError::UnsupportedOpCode),
        OpCode::KeyPressed(_) => Err(EmulatorError::UnsupportedOpCode),
        OpCode::KeyNotPressed(_) => Err(EmulatorError::UnsupportedOpCode),
        OpCode::AwaitKeyPress(_) => Err(EmulatorError::UnsupportedOpCode),
        OpCode::SpriteAddressRegister(_) => Err(EmulatorError::UnsupportedOpCode),
    }
}

/// The outcome of one fetch-decode-execute step from state `s` with the display
/// showing `pixels`. A failed step changes nothing.
pub open spec fn step_spec(s: MachineState, pixels: Seq<bool>) -> Result<
    (MachineState, Seq<bool>),
    EmulatorError,
> {
    let pc = s.program_counter as int;
    if pc + 1 >= MEMORY_SIZE {
        Err(EmulatorError::MemoryOutOfBounds)
    } else {
        match decode_spec(s.memory[pc], s.memory[pc + 1]) {
            None => Err(EmulatorError::InvalidOpCode),
            Some(op) => execute_spec(s.jump((pc + 2) as usize), op, pixels),
        }
    }
}

/// A CHIP-8 machine: registers, memory, timers, call stack, a random source, and
/// the display that it draws on.
pub struct Emulator<D> {
    registers: [u8; 16],
    memory_address_register: AddressRegister,
    memory: [u8; 4096],
    delay_timer: u8,
    sound_timer: u8,
    program_counter: usize,
    random_generator: Rand,
    stack: Vec<usize>,
    pub display: D,
}

impl<D> View for Emulator<D> {
    type V = MachineState;

    closed spec fn view(&self) -> MachineState {
        MachineState {
            registers: self.registers@,
            address_register: self.memory_address_register,
            memory: self.memory@,
            delay_timer: self.delay_timer,
            sound_timer: self.sound_timer,
            program_counter: self.program_counter,
            stack: self.stack@,
            rng: self.random_generator@,
        }
    }
}

impl<D> Emulator<D> {
    /// The display that the machine draws on.
    pub closed spec fn surface(self) -> D {
        self.display
    }

    /// The display that the machine draws on, as its contracts speak of it.
    pub fn display(&self) -> (r: &D)
        ensures
            *r == self.surface(),
    {
        &self.display
    }

    /// The state is well formed.
    pub proof fn lemma_well_formed(&self)
        ensures
            self@.well_formed(),
    {
    }

    /// A machine built with the default configuration around `display`; its
    /// random source is seeded from the clock.
    pub fn new(display: D) -> (r: Self)
        ensures
            r@ == initial_state(0, PROGRAM_START, r@.rng),
            r.surface() == display,
    {
        EmulatorBuilder::new().build(display)
    }

    /// Writes `bytes` into memory at the program counter; see `write_memory`.
    pub fn write_at_pc(&mut self, bytes: &[u8]) -> (r: bool)
        ensures
            r == (old(self)@.program_counter + bytes@.len() <= MEMORY_SIZE),
            final(self)@ == (if r {
                MachineState {
                    memory: written(old(self)@.memory, old(self)@.program_counter as int, bytes@),
                    ..old(self)@
                }
            } else {
                old(self)@
            }),
            final(self).surface() == old(self).surface(),
    {
        self.write_memory(bytes, self.program_counter)
    }

    /// Writes `bytes` into memory from `at` on when they fit, and returns whether
    /// they did; when they do not, nothing is written.
    pub fn write_memory(&mut self, bytes: &[u8], at: usize) -> (r: bool)
        ensures
            r == (at + bytes@.len() <= MEMORY_SIZE),
            final(self)@ == (if r {
                MachineState { memory: written(old(self)@.memory, at as int, bytes@), ..old(self)@ }
            } else {
                old(self)@
            }),
            final(self).surface() == old(self).surface(),
    {
        if at > MEMORY_SIZE || bytes.len() > MEMORY_SIZE - at {
            false
        } else {
            let mut i: usize = 0;
            while i < bytes.len()
                invariant
                    at + bytes@.len() <= MEMORY_SIZE,
                    0 <= i <= bytes@.len(),
                    self.memory@ == written(old(self)@.memory, at as int, bytes@.subrange(0, i as int)),
                    self@ == (MachineState { memory: self.memory@, ..old(self)@ }),
                    self.surface() == old(self).surface(),
                decreases bytes@.len() - i,
            {
                self.memory[at + i] = bytes[i];
                i += 1;
                assert(self.memory@ =~= written(old(self)@.memory, at as int, bytes@.subrange(0, i as int)));
            }
            assert(bytes@.subrange(0, i as int) =~= bytes@);
            true
        }
    }

    /// Value of register `r`.
    pub fn register(&self, r: usize) -> (v: u8)
        requires
            r < REGISTER_COUNT,
        ensures
            v == self@.registers[r as int],
    {
        self.registers[r]
    }

    /// Byte of memory at `at`.
    pub fn memory_at(&self, at: usize) -> (v: u8)
        requires
            at < MEMORY_SIZE,
        ensures
            v == self@.memory[at as int],
    {
        self.memory[at]
    }

    /// Value of the address register.
    pub fn address_register(&self) -> (v: u16)
        ensures
            v == self@.address_register,
    {
        self.memory_address_register
    }

    /// Offset in memory of the next instruction.
    pub fn program_counter(&self) -> (v: usize)
        ensures
            v == self@.program_counter,
    {
        self.program_counter
    }

    /// Number of return addresses on the call stack.
    pub fn stack_depth(&self) -> (v: usize)
        ensures
            v == self@.stack.len(),
    {
        self.stack.len()
    }

    /// Value of the delay timer.
    pub fn delay_timer(&self) -> (v: u8)
        ensures
            v == self@.delay_timer,
    {
        self.delay_timer
    }

    /// Value of the sound timer.
    pub fn sound_timer(&self) -> (v: u8)
        ensures
            v == self@.sound_timer,
    {
        self.sound_timer
    }

    /// Sets the delay timer, which a driving loop counts down.
    pub fn set_delay_timer(&mut self, v: u8)
        ensures
            final(self)@ == (MachineState { delay_timer: v, ..old(self)@ }),
            final(self).surface() == old(self).surface(),
    {
        self.delay_timer = v;
    }

    /// Sets the sound timer, which a driving loop counts down.
    pub fn set_sound_timer(&mut self, v: u8)
        ensures
            final(self)@ == (MachineState { sound_timer: v, ..old(self)@ }),
            final(self).surface() == old(self).surface(),
    {
        self.sound_timer = v;
    }
}

impl<D: ChipDisplay> Emulator<D> {
    /// Fetches the instruction word at the program counter, decodes it, and
    /// executes it. On failure nothing changes.
    pub fn next_opcode(&mut self) -> (r: Result<(), EmulatorError>)
        ensures
            match step_spec(old(self)@, old(self).surface().pixels()) {
                Ok((s, pixels)) => {
                    &&& r is Ok
                    &&& final(self)@ == s
                    &&& final(self).surface().pixels() == pixels
                },
                Err(e) => {
                    &&& r == Err::<(), EmulatorError>(e)
                    &&& final(self)@ == old(self)@
                    &&& final(self).surface() == old(self).surface()
                },
            },
    {
        let pc = self.program_counter;
        if pc >= MEMORY_SIZE - 1 {
            return Err(EmulatorError::MemoryOutOfBounds);
        }
        let bytes = (self.memory[pc], self.memory[pc + 1]);
        let opcode = match OpCode::try_from(bytes) {
            Ok(op) => op,
            Err(_) => return Err(EmulatorError::InvalidOpCode),
        };
        proof {
            lemma_decode_then_encode(bytes.0, bytes.1);
        }
        self.execute(opcode, pc + 2)
    }

    /// The error that executing `op` in the current state gives, if any; checked
    /// before anything changes.
    fn check(&self, op: OpCode) -> (r: Result<(), EmulatorError>)
        requires
            op.well_formed(),
        ensures
            r is Err <==> execute_spec(self@, op, self.display.pixels()) is Err,
            r matches Err(e) ==> execute_spec(self@, op, self.display.pixels()) == Err::<
                (MachineState, Seq<bool>),
                EmulatorError,
            >(e),
    {
        let at = self.memory_address_register as usize;
        match op {
            OpCode::Return => if self.stack.len() == 0 {
                Err(EmulatorError::InvalidReturn)
            } else {
                Ok(())
            },
            OpCode::Draw(x, y, height) => {
                let sx = self.registers[x as usize];
                let sy = self.registers[y as usize];
                let len = 8 * height as usize;
                if at + len > MEMORY_SIZE || (height > 0 && (sx as usize + 8 > SCREEN_WIDTH
                    || sy as usize + height as usize > SCREEN_HEIGHT)) {
                    Err(EmulatorError::MemoryOutOfBounds)
                } else {
                    Ok(())
                }
            },
            OpCode::StoreBCD(_) => if at + 3 > MEMORY_SIZE {
                Err(EmulatorError::MemoryOutOfBounds)
            } else {
                Ok(())
            },
            OpCode::DumpRegisters(x) => if at + x as usize + 1 > MEMORY_SIZE {
                Err(EmulatorError::MemoryOutOfBounds)
            } else {
                Ok(())
            },
            OpCode::LoadRegisters(x) => if at + x as usize + 1 > MEMORY_SIZE {
                Err(EmulatorError::MemoryOutOfBounds)
            } else {
                Ok(())
            },
            OpCode::CallMachineCode(_) => Err(EmulatorError::UnsupportedOpCode),
            OpCode::KeyPressed(_) => Err(EmulatorError::UnsupportedOpCode),
            OpCode::KeyNotPressed(_) => Err(EmulatorError::UnsupportedOpCode),
            OpCode::AwaitKeyPress(_) => Err(EmulatorError::UnsupportedOpCode),
            OpCode::SpriteAddressRegister(_) => Err(EmulatorError::UnsupportedOpCode),
            _ => Ok(()),
        }
    }

    /// Executes `op` with the program counter moved on to `next_pc`.
    #[verifier::rlimit(40)]
    fn execute(&mut self, op: OpCode, next_pc: usize) -> (r: Result<(), EmulatorError>)
        requires
            op.well_formed(),
            next_pc <= MEMORY_SIZE,
        ensures
            match execute_spec(old(self)@.jump(next_pc), op, old(self).surface().pixels()) {
                Ok((s, pixels)) => {
                    &&& r is Ok
                    &&& final(self)@ == s
                    &&& final(self).surface().pixels() == pixels
                },
                Err(e) => {
                    &&& r == Err::<(), EmulatorError>(e)
                    &&& final(self)@ == old(self)@
                    &&& final(self).surface() == old(self).surface()
                },
            },
    {
        if let Err(e) = self.check(op) {
            return Err(e);
        }
        self.program_counter = next_pc;
        let at = self.memory_address_register as usize;
        match op {
            OpCode::Return => {
                let return_address = self.stack.pop().unwrap();
                self.program_counter = return_address;
            },
            OpCode::DisplayClear => self.display.clear(),
            OpCode::Jump(address) => self.program_counter = address as usize,
            OpCode::CallSubroutine(address) => {
                self.stack.push(self.program_counter);
                self.program_counter = address as usize;
            },
            OpCode::CompareEqConst(x, c) => if self.registers[x as usize] == c {
                self.program_counter = self.program_counter + 2;
            },
            OpCode::CompareNotEqConst(x, c) => if self.registers[x as usize] != c {
                self.program_counter = self.program_counter + 2;
            },
            OpCode::CompareEq(x, y) => if self.registers[x as usize] == self.registers[y as usize] {
                self.program_counter = self.program_counter + 2;
            },
            OpCode::CompareNotEq(x, y) => if self.registers[x as usize]
                != self.registers[y as usize] {
                self.program_counter = self.program_counter + 2;
            },
            OpCode::SetRegisterConst(x, c) => self.registers[x as usize] = c,
            OpCode::AddRegisterConst(x, c) => {
                let v = self.registers[x as usize];
                self.registers[x as usize] = ((v as u16 + c as u16) % 256) as u8;
            },
            OpCode::SetRegister(x, y) => self.registers[x as usize] = self.registers[y as usize],
            OpCode::Or(x, y) => self.registers[x as usize] = self.registers[x as usize]
                | self.registers[y as usize],
            OpCode::And(x, y) => self.registers[x as usize] = self.registers[x as usize]
                & self.registers[y as usize],
            OpCode::Xor(x, y) => self.registers[x as usize] = self.registers[x as usize]
                ^ self.registers[y as usize],
            OpCode::Add(x, y) => {
                let sum = self.registers[x as usize] as u16 + self.registers[y as usize] as u16;
                self.registers[FLAG_REGISTER] = if sum > 255 { 1 } else { 0 };
                self.registers[x as usize] = (sum % 256) as u8;
            },
            OpCode::Sub(x, y) => {
                let a = self.registers[x as usize];
                let b = self.registers[y as usize];
                self.registers[FLAG_REGISTER] = if a >= b { 1 } else { 0 };
                self.registers[x as usize] = ((a as u16 + 256 - b as u16) % 256) as u8;
            },
            OpCode::SubFrom(x, y) => {
                let a = self.registers[x as usize];
                let b = self.registers[y as usize];
                self.registers[FLAG_REGISTER] = if b >= a { 1 } else { 0 };
                self.registers[x as usize] = ((b as u16 + 256 - a as u16) % 256) as u8;
            },
            OpCode::ShiftRight(x) => {
                let v = self.registers[x as usize];
                self.registers[FLAG_REGISTER] = v % 2;
                self.registers[x as usize] = v / 2;
            },
            OpCode::ShiftLeft(x) => {
                let v = self.registers[x as usize];
                self.registers[FLAG_REGISTER] = v / 128;
                self.registers[x as usize] = ((v as u16 * 2) % 256) as u8;
            },
            OpCode::SetAddressRegisterConst(address) => self.memory_address_register = address,
            OpCode::JumpOffset(address) => self.program_counter = address as usize
                + self.registers[0] as usize,
            OpCode::Random(x, mask) => {
                let value = self.random_generator.rand_range(0, 255) as u8;
                self.registers[x as usize] = value & mask;
            },
            OpCode::Draw(x, y, height) => {
                let sx = self.registers[x as usize];
                let sy = self.registers[y as usize];
                let len = 8 * height as usize;
                let sprite = vstd::slice::slice_subrange(self.memory.as_slice(), at, at + len);
                let flip = self.display.draw_sprite(sx, sy, sprite);
                self.registers[FLAG_REGISTER] = if flip { 1 } else { 0 };
            },
            OpCode::GetDelayTimer(x) => self.registers[x as usize] = self.delay_timer,
            OpCode::SetDelayTimer(x) => self.delay_timer = self.registers[x as usize],
            OpCode::SetSoundTimer(x) => self.sound_timer = self.registers[x as usize],
            OpCode::AddAddressRegister(x) => {
                let sum = self.memory_address_register as u32 + self.registers[x as usize] as u32;
                self.memory_address_register = (sum % 0x1_0000) as u16;
            },
            OpCode::StoreBCD(x) => {
                let value = self.registers[x as usize];
                let digits = [value / 100, (value % 100) / 10, value % 10];
                self.write_memory(digits.as_slice(), at);
                proof {
                    assert(digits@ =~= seq![(value / 100) as u8, ((value % 100) / 10) as u8, (value % 10) as u8]);
                }
            },
            OpCode::DumpRegisters(x) => {
                let count = x as usize + 1;
                let mut i: usize = 0;
                while i < count
                    invariant
                        count == x + 1,
                        x < 16,
                        at == self.memory_address_register,
                        at + count <= MEMORY_SIZE,
                        0 <= i <= count,
                        self.memory@ == written(old(self)@.memory, at as int, self.registers@.subrange(0, i as int)),
                        self@ == (MachineState { memory: self.memory@, ..old(self)@.jump(next_pc) }),
                        self.display == old(self).display,
                    decreases count - i,
                {
                    self.memory[at + i] = self.registers[i];
                    i += 1;
                    assert(self.memory@ =~= written(old(self)@.memory, at as int, self.registers@.subrange(0, i as int)));
                }
            },
            OpCode::LoadRegisters(x) => {
                let count = x as usize + 1;
                let mut i: usize = 0;
                while i < count
                    invariant
                        count == x + 1,
                        x < 16,
                        at == self.memory_address_register,
                        at + count <= MEMORY_SIZE,
                        0 <= i <= count,
                        self.registers@ == written(old(self)@.registers, 0, self.memory@.subrange(at as int, at + i)),
                        self@ == (MachineState { registers: self.registers@, ..old(self)@.jump(next_pc) }),
                        self.display == old(self).display,
                    decreases count - i,
                {
                    self.registers[i] = self.memory[at + i];
                    i += 1;
                    assert(self.registers@ =~= written(old(self)@.registers, 0, self.memory@.subrange(at as int, at + i)));
                }
            },
            OpCode::CallMachineCode(_) => {},
            OpCode::KeyPressed(_) => {},
            OpCode::KeyNotPressed(_) => {},
            OpCode::AwaitKeyPress(_) => {},
            OpCode::SpriteAddressRegister(_) => {},
        }
        Ok(())
    }
}


/// Addition and subtraction of registers write a flag of 0 or 1 for every pair of
/// operands, and leave the wrapped result in the target register (unless that is
/// the flag register itself, which receives the result last).
pub proof fn lemma_add_sub_flags(s: MachineState, pixels: Seq<bool>, x: u8, y: u8)
    requires
        s.well_formed(),
        x < 16,
        y < 16,
        x != FLAG_REGISTER,
    ensures
        execute_spec(s, OpCode::Add(x, y), pixels) matches Ok((t, _)) && {
            &&& t.reg(FLAG_REGISTER as u8) == 0 || t.reg(FLAG_REGISTER as u8) == 1
            &&& t.reg(FLAG_REGISTER as u8) == 1 <==> s.reg(x) + s.reg(y) > 255
            &&& t.reg(x) == (s.reg(x) + s.reg(y)) % 256
        },
        execute_spec(s, OpCode::Sub(x, y), pixels) matches Ok((t, _)) && {
            &&& t.reg(FLAG_REGISTER as u8) == 0 || t.reg(FLAG_REGISTER as u8) == 1
            &&& t.reg(FLAG_REGISTER as u8) == 1 <==> s.reg(x) >= s.reg(y)
            &&& t.reg(x) == (s.reg(x) - s.reg(y) + 256) % 256
        },
{
}

/// `op` is one of the four conditional skips.
pub open spec fn is_skip(op: OpCode) -> bool {
    ||| op is CompareEqConst
    ||| op is CompareNotEqConst
    ||| op is CompareEq
    ||| op is CompareNotEq
}

/// The condition of the skip `op` holds in state `s`.
pub open spec fn skip_holds(s: MachineState, op: OpCode) -> bool {
    match op {
        OpCode::CompareEqConst(x, k) => s.reg(x) == k,
        OpCode::CompareNotEqConst(x, k) => s.reg(x) != k,
        OpCode::CompareEq(x, y) => s.reg(x) == s.reg(y),
        OpCode::CompareNotEq(x, y) => s.reg(x) != s.reg(y),
        _ => false,
    }
}

/// A step on a skip instruction moves the program counter on by 4 when its
/// condition holds and by 2 otherwise, and changes nothing else.
pub proof fn lemma_skip_advance(s: MachineState, pixels: Seq<bool>)
    requires
        s.well_formed(),
        s.program_counter + 1 < MEMORY_SIZE,
        decode_spec(s.memory[s.program_counter as int], s.memory[s.program_counter + 1]) matches Some(
            op,
        ) && is_skip(op),
    ensures
        step_spec(s, pixels) matches Ok((t, q)) && {
            let op = decode_spec(
                s.memory[s.program_counter as int],
                s.memory[s.program_counter + 1],
            ).unwrap();
            &&& t.program_counter == s.program_counter + (if skip_holds(s, op) { 4int } else { 2 })
            &&& t == s.jump(t.program_counter)
            &&& q == pixels
        },
{
    let pc = s.program_counter as int;
    lemma_decode_then_encode(s.memory[pc], s.memory[pc + 1]);
}

/// A call to a subroutine whose first instruction returns brings the program
/// counter back to just after the call, with the call stack as it was.
pub proof fn lemma_call_then_return(s: MachineState, pixels: Seq<bool>, target: u16)
    requires
        s.well_formed(),
        s.program_counter + 1 < MEMORY_SIZE,
        decode_spec(s.memory[s.program_counter as int], s.memory[s.program_counter + 1])
            == Some(OpCode::CallSubroutine(target)),
        target + 1 < MEMORY_SIZE,
        s.memory[target as int] == 0x00,
        s.memory[target + 1] == 0xEE,
    ensures
        step_spec(s, pixels) matches Ok((t, q)) && step_spec(t, q) matches Ok((u, w)) && {
            &&& u.program_counter == s.program_counter + 2
            &&& u.stack == s.stack
            &&& u == s.jump(u.program_counter)
            &&& w == pixels
        },
{
    let t = s.jump((s.program_counter + 2) as usize);
    let t = MachineState {
        program_counter: target as usize,
        stack: t.stack.push(t.program_counter),
        ..t
    };
    assert(t.stack.drop_last() =~= s.stack);
}

/// The state of a freshly built machine: zeroed registers, timers and address
/// register, every byte of memory `fill`, the program counter at `pc`, an empty
/// call stack, and the random source at `rng`.
pub open spec fn initial_state(fill: u8, pc: usize, rng: u32) -> MachineState {
    MachineState {
        registers: Seq::new(REGISTER_COUNT as nat, |i: int| 0u8),
        address_register: 0,
        memory: Seq::new(MEMORY_SIZE as nat, |i: int| fill),
        delay_timer: 0,
        sound_timer: 0,
        program_counter: pc,
        stack: Seq::empty(),
        rng,
    }
}

/// Relies on `SystemTime::now`, measured from `UNIX_EPOCH`: the nanoseconds within
/// the current second, as a seed. Nothing is known of the value.
#[verifier::external_body]
fn clock_seed() -> u32 {
    std::time::SystemTime::now().duration_since(std::time::UNIX_EPOCH).map_or(0, |d| d.subsec_nanos())
}

/// The configuration of a machine to build: memory fill, initial program counter
/// and random seed, each with a default.
pub struct EmulatorBuilder {
    mem_init: Option<u8>,
    program_counter_init: Option<usize>,
    rand_seed: Option<u32>,
}

impl EmulatorBuilder {
    /// The byte that memory is filled with, if configured (default 0).
    pub closed spec fn memory_fill(self) -> Option<u8> {
        self.mem_init
    }

    /// The initial program counter, if configured (default 512).
    pub closed spec fn start(self) -> Option<usize> {
        self.program_counter_init
    }

    /// The random seed, if configured (default taken from the clock).
    pub closed spec fn seed(self) -> Option<u32> {
        self.rand_seed
    }

    /// A configuration with every default.
    pub fn new() -> (r: Self)
        ensures
            r.memory_fill() is None,
            r.start() is None,
            r.seed() is None,
    {
        Self { mem_init: None, program_counter_init: None, rand_seed: None }
    }

    /// Fills memory with `byte`.
    pub fn initial_memory(self, byte: u8) -> (r: Self)
        ensures
            r.memory_fill() == Some(byte),
            r.start() == self.start(),
            r.seed() == self.seed(),
    {
        Self { mem_init: Some(byte), ..self }
    }

    /// Starts the program counter at `pc`.
    pub fn initial_program_counter(self, pc: usize) -> (r: Self)
        ensures
            r.memory_fill() == self.memory_fill(),
            r.start() == Some(pc),
            r.seed() == self.seed(),
    {
        Self { program_counter_init: Some(pc), ..self }
    }

    /// Seeds the random source with `seed`.
    pub fn seed_random(self, seed: u32) -> (r: Self)
        ensures
            r.memory_fill() == self.memory_fill(),
            r.start() == self.start(),
            r.seed() == Some(seed),
    {
        Self { rand_seed: Some(seed), ..self }
    }

    /// The state that `build` gives, with the random source at `rng`.
    pub open spec fn built_state(self, rng: u32) -> MachineState {
        initial_state(
            match self.memory_fill() {
                Some(b) => b,
                None => 0,
            },
            match self.start() {
                Some(pc) => pc,
                None => PROGRAM_START,
            },
            rng,
        )
    }

    /// Builds a machine around `display`, then loads `program` at its initial
    /// program counter; `None` when the program does not fit in memory.
    pub fn build_with_program<D>(self, display: D, program: &[u8]) -> (r: Option<Emulator<D>>)
        ensures
            r is Some <==> self.built_state(0).program_counter + program@.len() <= MEMORY_SIZE,
            r matches Some(e) ==> {
                &&& e@ == (MachineState {
                    memory: written(
                        self.built_state(e@.rng).memory,
                        self.built_state(e@.rng).program_counter as int,
                        program@,
                    ),
                    ..self.built_state(e@.rng)
                })
                &&& self.seed() matches Some(seed) ==> e@.rng == seed
                &&& e.surface() == display
            },
    {
        let mut emulator = self.build(display);
        match emulator.write_at_pc(program) {
            true => Some(emulator),
            false => None,
        }
    }

    /// Builds a machine around `display` from this configuration.
    pub fn build<D>(self, display: D) -> (r: Emulator<D>)
        ensures
            r@ == self.built_state(r@.rng),
            self.seed() matches Some(seed) ==> r@.rng == seed,
            r.surface() == display,
    {
        let seed = match self.rand_seed {
            Some(seed) => seed,
            None => clock_seed(),
        };
        let fill = match self.mem_init {
            Some(b) => b,
            None => 0,
        };
        let pc = match self.program_counter_init {
            Some(pc) => pc,
            None => PROGRAM_START,
        };
        let r = Emulator {
            registers: [0; 16],
            memory_address_register: 0,
            memory: [fill; 4096],
            delay_timer: 0,
            sound_timer: 0,
            program_counter: pc,
            random_generator: Rand::new(seed),
            stack: Vec::with_capacity(12),
            display,
        };
        assert(r.registers@ =~= Seq::new(REGISTER_COUNT as nat, |i: int| 0u8));
        assert(r.memory@ =~= Seq::new(MEMORY_SIZE as nat, |i: int| fill));
        r
    }
}

} // verus!

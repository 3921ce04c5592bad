use vstd::prelude::*;

verus! {

/// A memory address; only the low 12 bits are used.
pub type MemoryAddress = u16;

/// An 8-bit constant carried by an instruction.
pub type Constant = u8;

/// A register index; only the low 4 bits are used.
pub type RegisterIdentifier = u8;

/// The address register; only the low 12 bits address memory.
pub type AddressRegister = u16;

/// Splits an instruction word into its four nibbles, high nibble first.
pub fn split_opcode_bytes(opcode_bytes: (u8, u8)) -> (r: (u8, u8, u8, u8))
    ensures
        r == nibbles(opcode_bytes.0, opcode_bytes.1),
{
    let (hi, lo) = opcode_bytes;
    proof {
        assert((hi & 0xF0) >> 4 == hi / 16) by (bit_vector);
        assert(hi & 0x0F == hi % 16) by (bit_vector);
        assert((lo & 0xF0) >> 4 == lo / 16) by (bit_vector);
        assert(lo & 0x0F == lo % 16) by (bit_vector);
    }
    ((hi & 0xF0) >> 4, hi & 0x0F, (lo & 0xF0) >> 4, lo & 0x0F)
}

/// The four nibbles of the instruction word `hi lo`.
pub open spec fn nibbles(hi: u8, lo: u8) -> (u8, u8, u8, u8) {
    ((hi / 16) as u8, (hi % 16) as u8, (lo / 16) as u8, (lo % 16) as u8)
}

/// The 12-bit address held in the low three nibbles of the word `hi lo`.
pub open spec fn address_of(hi: u8, lo: u8) -> u16 {
    ((hi % 16) * 256 + lo) as u16
}

fn address_from_word(hi: u8, lo: u8) -> (r: MemoryAddress)
    ensures
        r == address_of(hi, lo),
{
    (hi % 16) as u16 * 256 + lo as u16
}

/// One CHIP-8 operation, with its operands.
#[derive(Debug, Clone, Copy, PartialEq, Eq, Structural)]
pub enum OpCode {
    CallMachineCode(MemoryAddress),
    DisplayClear,
    Return,
    Jump(MemoryAddress),
    CallSubroutine(MemoryAddress),
    CompareEqConst(RegisterIdentifier, Constant),
    CompareNotEqConst(RegisterIdentifier, Constant),
    CompareEq(RegisterIdentifier, RegisterIdentifier),
    CompareNotEq(RegisterIdentifier, RegisterIdentifier),
    SetRegisterConst(RegisterIdentifier, Constant),
    AddRegisterConst(RegisterIdentifier, Constant),
    SetRegister(RegisterIdentifier, RegisterIdentifier),
    Or(RegisterIdentifier, RegisterIdentifier),
    And(RegisterIdentifier, RegisterIdentifier),
    Xor(RegisterIdentifier, RegisterIdentifier),
    Add(RegisterIdentifier, RegisterIdentifier),
    Sub(RegisterIdentifier, RegisterIdentifier),
    ShiftRight(RegisterIdentifier),
    ShiftLeft(RegisterIdentifier),
    SubFrom(RegisterIdentifier, RegisterIdentifier),
    SetAddressRegisterConst(MemoryAddress),
    JumpOffset(MemoryAddress),
    Random(RegisterIdentifier, Constant),
    Draw(RegisterIdentifier, RegisterIdentifier, Constant),
    KeyPressed(RegisterIdentifier),
    KeyNotPressed(RegisterIdentifier),
    AwaitKeyPress(RegisterIdentifier),
    GetDelayTimer(RegisterIdentifier),
    SetDelayTimer(RegisterIdentifier),
    SetSoundTimer(RegisterIdentifier),
    AddAddressRegister(RegisterIdentifier),
    SpriteAddressRegister(RegisterIdentifier),
    StoreBCD(RegisterIdentifier),
    DumpRegisters(RegisterIdentifier),
    LoadRegisters(RegisterIdentifier),
}

/// The operation that the word `hi lo` encodes, or `None` when no pattern matches.
pub open spec fn decode_spec(hi: u8, lo: u8) -> Option<OpCode> {
    let (n0, x, y, n) = nibbles(hi, lo);
    let addr = address_of(hi, lo);
    if hi == 0x00 && lo == 0xE0 {
        Some(OpCode::DisplayClear)
    } else if hi == 0x00 && lo == 0xEE {
        Some(OpCode::Return)
    } else if n0 == 0 {
        Some(OpCode::CallMachineCode(addr))
    } else if n0 == 1 {
        Some(OpCode::Jump(addr))
    } else if n0 == 2 {
        Some(OpCode::CallSubroutine(addr))
    } else if n0 == 3 {
        Some(OpCode::CompareEqConst(x, lo))
    } else if n0 == 4 {
        Some(OpCode::CompareNotEqConst(x, lo))
    } else if n0 == 5 && n == 0 {
        Some(OpCode::CompareEq(x, y))
    } else if n0 == 6 {
        Some(OpCode::SetRegisterConst(x, lo))
    } else if n0 == 7 {
        Some(OpCode::AddRegisterConst(x, lo))
    } else if n0 == 8 && n == 0 {
        Some(OpCode::SetRegister(x, y))
    } else if n0 == 8 && n == 1 {
        Some(OpCode::Or(x, y))
    } else if n0 == 8 && n == 2 {
        Some(OpCode::And(x, y))
    } else if n0 == 8 && n == 3 {
        Some(OpCode::Xor(x, y))
    } else if n0 == 8 && n == 4 {
        Some(OpCode::Add(x, y))
    } else if n0 == 8 && n == 5 {
        Some(OpCode::Sub(x, y))
    } else if n0 == 8 && n == 6 {
        Some(OpCode::ShiftRight(x))
    } else if n0 == 8 && n == 7 {
        Some(OpCode::SubFrom(x, y))
    } else if n0 == 8 && n == 0xE {
        Some(OpCode::ShiftLeft(x))
    } else if n0 == 9 && n == 0 {
        Some(OpCode::CompareNotEq(x, y))
    } else if n0 == 0xA {
        Some(OpCode::SetAddressRegisterConst(addr))
    } else if n0 == 0xB {
        Some(OpCode::JumpOffset(addr))
    } else if n0 == 0xC {
        Some(OpCode::Random(x, lo))
    } else if n0 == 0xD {
        Some(OpCode::Draw(x, y, n))
    } else if n0 == 0xE && lo == 0x9E {
        Some(OpCode::KeyPressed(x))
    } else if n0 == 0xE && lo == 0xA1 {
        Some(OpCode::KeyNotPressed(x))
    } else if n0 == 0xF && lo == 0x07 {
        Some(OpCode::GetDelayTimer(x))
    } else if n0 == 0xF && lo == 0x0A {
        Some(OpCode::AwaitKeyPress(x))
    } else if n0 == 0xF && lo == 0x15 {
        Some(OpCode::SetDelayTimer(x))
    } else if n0 == 0xF && lo == 0x18 {
        Some(OpCode::SetSoundTimer(x))
    } else if n0 == 0xF && lo == 0x1E {
        Some(OpCode::AddAddressRegister(x))
    } else if n0 == 0xF && lo == 0x29 {
        Some(OpCode::SpriteAddressRegister(x))
    } else if n0 == 0xF && lo == 0x33 {
        Some(OpCode::StoreBCD(x))
    } else if n0 == 0xF && lo == 0x55 {
        Some(OpCode::DumpRegisters(x))
    } else if n0 == 0xF && lo == 0x65 {
        Some(OpCode::LoadRegisters(x))
    } else {
        None
    }
}

impl OpCode {
    /// Every operand is in range: registers below 16, addresses below 4096,
    /// a sprite height below 16.
    pub open spec fn well_formed(self) -> bool {
        match self {
            OpCode::CallMachineCode(a) => a < 4096,
            OpCode::Jump(a) => a < 4096,
            OpCode::CallSubroutine(a) => a < 4096,
            OpCode::SetAddressRegisterConst(a) => a < 4096,
            OpCode::JumpOffset(a) => a < 4096,
            OpCode::CompareEqConst(x, _) => x < 16,
            OpCode::CompareNotEqConst(x, _) => x < 16,
            OpCode::SetRegisterConst(x, _) => x < 16,
            OpCode::AddRegisterConst(x, _) => x < 16,
            OpCode::Random(x, _) => x < 16,
            OpCode::CompareEq(x, y) => x < 16 && y < 16,
            OpCode::CompareNotEq(x, y) => x < 16 && y < 16,
            OpCode::SetRegister(x, y) => x < 16 && y < 16,
            OpCode::Or(x, y) => x < 16 && y < 16,
            OpCode::And(x, y) => x < 16 && y < 16,
            OpCode::Xor(x, y) => x < 16 && y < 16,
            OpCode::Add(x, y) => x < 16 && y < 16,
            OpCode::Sub(x, y) => x < 16 && y < 16,
            OpCode::SubFrom(x, y) => x < 16 && y < 16,
            OpCode::Draw(x, y, n) => x < 16 && y < 16 && n < 16,
            OpCode::ShiftRight(x) => x < 16,
            OpCode::ShiftLeft(x) => x < 16,
            OpCode::KeyPressed(x) => x < 16,
            OpCode::KeyNotPressed(x) => x < 16,
            OpCode::AwaitKeyPress(x) => x < 16,
            OpCode::GetDelayTimer(x) => x < 16,
            OpCode::SetDelayTimer(x) => x < 16,
            OpCode::SetSoundTimer(x) => x < 16,
            OpCode::AddAddressRegister(x) => x < 16,
            OpCode::SpriteAddressRegister(x) => x < 16,
            OpCode::StoreBCD(x) => x < 16,
            OpCode::DumpRegisters(x) => x < 16,
            OpCode::LoadRegisters(x) => x < 16,
            OpCode::DisplayClear => true,
            OpCode::Return => true,
        }
    }

    /// The instruction word, high byte first, that encodes this operation.
    /// Operands that the operation ignores are encoded as zero.
    pub open spec fn encode(self) -> (u8, u8) {
        let word = |n0: int, x: int, y: int, n: int| ((n0 * 16 + x) as u8, (y * 16 + n) as u8);
        let with_addr = |n0: int, a: u16| ((n0 * 16 + a / 256) as u8, (a % 256) as u8);
        let with_const = |n0: int, x: u8, k: u8| ((n0 * 16 + x) as u8, k);
        match self {
            OpCode::CallMachineCode(a) => with_addr(0, a),
            OpCode::DisplayClear => (0x00u8, 0xE0u8),
            OpCode::Return => (0x00u8, 0xEEu8),
            OpCode::Jump(a) => with_addr(1, a),
            OpCode::CallSubroutine(a) => with_addr(2, a),
            OpCode::CompareEqConst(x, k) => with_const(3, x, k),
            OpCode::CompareNotEqConst(x, k) => with_const(4, x, k),
            OpCode::CompareEq(x, y) => word(5, x as int, y as int, 0),
            OpCode::SetRegisterConst(x, k) => with_const(6, x, k),
            OpCode::AddRegisterConst(x, k) => with_const(7, x, k),
            OpCode::SetRegister(x, y) => word(8, x as int, y as int, 0),
            OpCode::Or(x, y) => word(8, x as int, y as int, 1),
            OpCode::And(x, y) => word(8, x as int, y as int, 2),
            OpCode::Xor(x, y) => word(8, x as int, y as int, 3),
            OpCode::Add(x, y) => word(8, x as int, y as int, 4),
            OpCode::Sub(x, y) => word(8, x as int, y as int, 5),
            OpCode::ShiftRight(x) => word(8, x as int, 0, 6),
            OpCode::SubFrom(x, y) => word(8, x as int, y as int, 7),
            OpCode::ShiftLeft(x) => word(8, x as int, 0, 0xE),
            OpCode::CompareNotEq(x, y) => word(9, x as int, y as int, 0),
            OpCode::SetAddressRegisterConst(a) => with_addr(0xA, a),
            OpCode::JumpOffset(a) => with_addr(0xB, a),
            OpCode::Random(x, k) => with_const(0xC, x, k),
            OpCode::Draw(x, y, n) => word(0xD, x as int, y as int, n as int),
            OpCode::KeyPressed(x) => with_const(0xE, x, 0x9E),
            OpCode::KeyNotPressed(x) => with_const(0xE, x, 0xA1),
            OpCode::GetDelayTimer(x) => with_const(0xF, x, 0x07),
            OpCode::AwaitKeyPress(x) => with_const(0xF, x, 0x0A),
            OpCode::SetDelayTimer(x) => with_const(0xF, x, 0x15),
            OpCode::SetSoundTimer(x) => with_const(0xF, x, 0x18),
            OpCode::AddAddressRegister(x) => with_const(0xF, x, 0x1E),
            OpCode::SpriteAddressRegister(x) => with_const(0xF, x, 0x29),
            OpCode::StoreBCD(x) => with_const(0xF, x, 0x33),
            OpCode::DumpRegisters(x) => with_const(0xF, x, 0x55),
            OpCode::LoadRegisters(x) => with_const(0xF, x, 0x65),
        }
    }
}

/// Every operation that a word decodes to is well formed, and encoding it again
/// gives a word that decodes to the same operation with the same operands.
pub proof fn lemma_decode_then_encode(hi: u8, lo: u8)
    ensures
        decode_spec(hi, lo) matches Some(op) ==> {
            &&& op.well_formed()
            &&& decode_spec(op.encode().0, op.encode().1) == Some(op)
        },
{
    if let Some(op) = decode_spec(hi, lo) {
        lemma_encode_then_decode(op);
    }
}

/// Decoding the encoding of a well-formed operation gives that operation back,
/// except for a machine-code call to `0x0E0` or `0x0EE`, whose words are those
/// of clearing the display and of returning.
pub proof fn lemma_encode_then_decode(op: OpCode)
    requires
        op.well_formed(),
        op != OpCode::CallMachineCode(0x0E0),
        op != OpCode::CallMachineCode(0x0EE),
    ensures
        decode_spec(op.encode().0, op.encode().1) == Some(op),
{
}

impl TryFrom<(u8, u8)> for OpCode {
    type Error = ();

    /// Decodes the instruction word `value.0 value.1`.
    fn try_from(value: (u8, u8)) -> (r: Result<Self, Self::Error>)
        ensures
            r == match decode_spec(value.0, value.1) {
                Some(op) => Ok::<OpCode, ()>(op),
                None => Err(()),
            },
    {
        let (hi, lo) = value;
        let opcode = match split_opcode_bytes(value) {
            (0, 0, 0xE, 0) => OpCode::DisplayClear,
            (0, 0, 0xE, 0xE) => OpCode::Return,
            (0, ..) => OpCode::CallMachineCode(address_from_word(hi, lo)),
            (1, ..) => OpCode::Jump(address_from_word(hi, lo)),
            (2, ..) => OpCode::CallSubroutine(address_from_word(hi, lo)),
            (3, reg, ..) => OpCode::CompareEqConst(reg, lo),
            (4, reg, ..) => OpCode::CompareNotEqConst(reg, lo),
            (5, reg_x, reg_y, 0) => OpCode::CompareEq(reg_x, reg_y),
            (6, reg, ..) => OpCode::SetRegisterConst(reg, lo),
            (7, reg, ..) => OpCode::AddRegisterConst(reg, lo),
            (8, reg_x, reg_y, 0) => OpCode::SetRegister(reg_x, reg_y),
            (8, reg_x, reg_y, 1) => OpCode::Or(reg_x, reg_y),
            (8, reg_x, reg_y, 2) => OpCode::And(reg_x, reg_y),
            (8, reg_x, reg_y, 3) => OpCode::Xor(reg_x, reg_y),
            (8, reg_x, reg_y, 4) => OpCode::Add(reg_x, reg_y),
            (8, reg_x, reg_y, 5) => OpCode::Sub(reg_x, reg_y),
            (8, reg, _, 6) => OpCode::ShiftRight(reg),
            (8, reg_x, reg_y, 7) => OpCode::SubFrom(reg_x, reg_y),
            (8, reg, _, 0xE) => OpCode::ShiftLeft(reg),
            (9, reg_x, reg_y, 0) => OpCode::CompareNotEq(reg_x, reg_y),
            (0xA, ..) => OpCode::SetAddressRegisterConst(address_from_word(hi, lo)),
            (0xB, ..) => OpCode::JumpOffset(address_from_word(hi, lo)),
            (0xC, reg, ..) => OpCode::Random(reg, lo),
            (0xD, reg_x, reg_y, height) => OpCode::Draw(reg_x, reg_y, height),
            (0xE, reg, 9, 0xE) => OpCode::KeyPressed(reg),
            (0xE, reg, 0xA, 1) => OpCode::KeyNotPressed(reg),
            (0xF, reg, 0, 7) => OpCode::GetDelayTimer(reg),
            (0xF, reg, 0, 0xA) => OpCode::AwaitKeyPress(reg),
            (0xF, reg, 1, 5) => OpCode::SetDelayTimer(reg),
            (0xF, reg, 1, 8) => OpCode::SetSoundTimer(reg),
            (0xF, reg, 1, 0xE) => OpCode::AddAddressRegister(reg),
            (0xF, reg, 2, 9) => OpCode::SpriteAddressRegister(reg),
            (0xF, reg, 3, 3) => OpCode::StoreBCD(reg),
            (0xF, reg, 5, 5) => OpCode::DumpRegisters(reg),
            (0xF, reg, 6, 5) => OpCode::LoadRegisters(reg),
            _ => return Err(()),
        };
        Ok(opcode)
    }
}

impl vstd::std_specs::convert::TryFromSpecImpl<(u8, u8)> for OpCode {
    open spec fn obeys_try_from_spec() -> bool {
        true
    }

    open spec fn try_from_spec(value: (u8, u8)) -> Result<Self, Self::Error> {
        match decode_spec(value.0, value.1) {
            Some(op) => Ok(op),
            None => Err(()),
        }
    }
}

} // verus!

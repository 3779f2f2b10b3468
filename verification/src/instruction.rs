//! Instruction words and their decoding.
//!
//! An instruction is a 16-bit word. Its highest nibble selects the class of
//! operation; the remaining nibbles are read, depending on the class, as
//! register numbers `x` and `y`, a 4-bit immediate `n`, an 8-bit immediate
//! `nn` or a 12-bit address `nnn`. Decoding never fails: a word that names no
//! operation decodes to [`Instruction::Unknown`].

use vstd::prelude::*;

verus! {

/// A decoded instruction together with its operands.
#[derive(Debug, PartialEq, Eq, Clone, Copy, Structural)]
pub enum Instruction {
    /// `00E0`: clear the display.
    Cls,
    /// `00EE`: return from a subroutine.
    Ret,
    /// `1nnn`: jump to `addr`.
    Jp { addr: u16 },
    /// `2nnn`: call the subroutine at `addr`.
    Call { addr: u16 },
    /// `3xnn`: skip the next instruction if `Vx == byte`.
    SeByte { x: u8, byte: u8 },
    /// `4xnn`: skip the next instruction if `Vx != byte`.
    SneByte { x: u8, byte: u8 },
    /// `5xy0`: skip the next instruction if `Vx == Vy`.
    SeReg { x: u8, y: u8 },
    /// `6xnn`: set `Vx` to `byte`.
    LdByte { x: u8, byte: u8 },
    /// `7xnn`: add `byte` to `Vx`, wrapping, without touching `VF`.
    AddByte { x: u8, byte: u8 },
    /// `8xy0`: set `Vx` to `Vy`.
    LdReg { x: u8, y: u8 },
    /// `8xy1`: set `Vx` to `Vx | Vy`.
    Or { x: u8, y: u8 },
    /// `8xy2`: set `Vx` to `Vx & Vy`.
    And { x: u8, y: u8 },
    /// `8xy3`: set `Vx` to `Vx ^ Vy`.
    Xor { x: u8, y: u8 },
    /// `8xy4`: add `Vy` to `Vx`; `VF` is the carry.
    AddReg { x: u8, y: u8 },
    /// `8xy5`: subtract `Vy` from `Vx`; `VF` is 1 when there is no borrow.
    SubReg { x: u8, y: u8 },
    /// `8xy6`: shift `Vx` right by one; `VF` is the bit shifted out.
    Shr { x: u8 },
    /// `8xy7`: set `Vx` to `Vy - Vx`; `VF` is 1 when there is no borrow.
    SubnReg { x: u8, y: u8 },
    /// `8xyE`: shift `Vx` left by one; `VF` is the bit shifted out.
    Shl { x: u8 },
    /// `9xy0`: skip the next instruction if `Vx != Vy`.
    SneReg { x: u8, y: u8 },
    /// `Annn`: set `I` to `addr`.
    LdI { addr: u16 },
    /// `Bnnn`: jump to `addr + V0`.
    JpV0 { addr: u16 },
    /// `Cxnn`: set `Vx` to a random byte masked with `byte`.
    Rnd { x: u8, byte: u8 },
    /// `Dxyn`: draw the `n`-row sprite at `I` at `(Vx, Vy)`; `VF` is the
    /// collision flag.
    Drw { x: u8, y: u8, n: u8 },
    /// `Ex9E`: skip the next instruction if the key `Vx` is down.
    Skp { x: u8 },
    /// `ExA1`: skip the next instruction if the key `Vx` is up.
    Sknp { x: u8 },
    /// `Fx07`: set `Vx` to the delay timer.
    LdVxDt { x: u8 },
    /// `Fx0A`: set `Vx` to a released key, or run this instruction again.
    LdVxKey { x: u8 },
    /// `Fx15`: set the delay timer to `Vx`.
    LdDtVx { x: u8 },
    /// `Fx18`: set the sound timer to `Vx`.
    LdStVx { x: u8 },
    /// `Fx1E`: add `Vx` to `I`.
    AddI { x: u8 },
    /// `Fx29`: set `I` to the address of the font sprite of `Vx`.
    LdFont { x: u8 },
    /// `Fx33`: store the three decimal digits of `Vx` at `I`, `I+1`, `I+2`.
    LdBcd { x: u8 },
    /// `Fx55`: store `V0..=Vx` at `I` onwards.
    StoreRegs { x: u8 },
    /// `Fx65`: load `V0..=Vx` from `I` onwards.
    LoadRegs { x: u8 },
    /// Any other word; it has no effect.
    Unknown { word: u16 },
}

/// The class of operation: the highest nibble of the word.
pub open spec fn opcode_of(word: u16) -> u8 {
    (word / 0x1000) as u8
}

/// The register number `x`: the second nibble.
pub open spec fn x_of(word: u16) -> u8 {
    ((word / 0x100) % 0x10) as u8
}

/// The register number `y`: the third nibble.
pub open spec fn y_of(word: u16) -> u8 {
    ((word / 0x10) % 0x10) as u8
}

/// The 4-bit immediate `n`: the lowest nibble.
pub open spec fn n_of(word: u16) -> u8 {
    (word % 0x10) as u8
}

/// The 8-bit immediate `nn`: the low byte.
pub open spec fn nn_of(word: u16) -> u8 {
    (word % 0x100) as u8
}

/// The 12-bit address `nnn`: the low three nibbles.
pub open spec fn nnn_of(word: u16) -> u16 {
    (word % 0x1000) as u16
}

/// The instruction that `word` stands for.
pub open spec fn decode_spec(word: u16) -> Instruction {
    let op = opcode_of(word);
    let x = x_of(word);
    let y = y_of(word);
    let n = n_of(word);
    let byte = nn_of(word);
    let addr = nnn_of(word);
    if word == 0x00E0 {
        Instruction::Cls
    } else if word == 0x00EE {
        Instruction::Ret
    } else if op == 0x1 {
        Instruction::Jp { addr }
    } else if op == 0x2 {
        Instruction::Call { addr }
    } else if op == 0x3 {
        Instruction::SeByte { x, byte }
    } else if op == 0x4 {
        Instruction::SneByte { x, byte }
    } else if op == 0x5 && n == 0x0 {
        Instruction::SeReg { x, y }
    } else if op == 0x6 {
        Instruction::LdByte { x, byte }
    } else if op == 0x7 {
        Instruction::AddByte { x, byte }
    } else if op == 0x8 && n == 0x0 {
        Instruction::LdReg { x, y }
    } else if op == 0x8 && n == 0x1 {
        Instruction::Or { x, y }
    } else if op == 0x8 && n == 0x2 {
        Instruction::And { x, y }
    } else if op == 0x8 && n == 0x3 {
        Instruction::Xor { x, y }
    } else if op == 0x8 && n == 0x4 {
        Instruction::AddReg { x, y }
    } else if op == 0x8 && n == 0x5 {
        Instruction::SubReg { x, y }
    } else if op == 0x8 && n == 0x6 {
        Instruction::Shr { x }
    } else if op == 0x8 && n == 0x7 {
        Instruction::SubnReg { x, y }
    } else if op == 0x8 && n == 0xE {
        Instruction::Shl { x }
    } else if op == 0x9 && n == 0x0 {
        Instruction::SneReg { x, y }
    } else if op == 0xA {
        Instruction::LdI { addr }
    } else if op == 0xB {
        Instruction::JpV0 { addr }
    } else if op == 0xC {
        Instruction::Rnd { x, byte }
    } else if op == 0xD {
        Instruction::Drw { x, y, n }
    } else if op == 0xE && byte == 0x9E {
        Instruction::Skp { x }
    } else if op == 0xE && byte == 0xA1 {
        Instruction::Sknp { x }
    } else if op == 0xF && byte == 0x07 {
        Instruction::LdVxDt { x }
    } else if op == 0xF && byte == 0x0A {
        Instruction::LdVxKey { x }
    } else if op == 0xF && byte == 0x15 {
        Instruction::LdDtVx { x }
    } else if op == 0xF && byte == 0x18 {
        Instruction::LdStVx { x }
    } else if op == 0xF && byte == 0x1E {
        Instruction::AddI { x }
    } else if op == 0xF && byte == 0x29 {
        Instruction::LdFont { x }
    } else if op == 0xF && byte == 0x33 {
        Instruction::LdBcd { x }
    } else if op == 0xF && byte == 0x55 {
        Instruction::StoreRegs { x }
    } else if op == 0xF && byte == 0x65 {
        Instruction::LoadRegs { x }
    } else {
        Instruction::Unknown { word }
    }
}

impl Instruction {
    /// Whether the instruction steers the program: a clear of the display, a
    /// jump, a call, a return, a skip or a wait for a key.
    pub open spec fn is_control(self) -> bool {
        matches!(
            self,
            Instruction::Cls
                | Instruction::Ret
                | Instruction::Jp { .. }
                | Instruction::Call { .. }
                | Instruction::JpV0 { .. }
                | Instruction::SeByte { .. }
                | Instruction::SneByte { .. }
                | Instruction::SeReg { .. }
                | Instruction::SneReg { .. }
                | Instruction::Skp { .. }
                | Instruction::Sknp { .. }
                | Instruction::LdVxKey { .. }
        )
    }

    /// Whether the instruction computes a register from registers, an
    /// immediate, the delay timer or a random byte.
    pub open spec fn is_arithmetic(self) -> bool {
        matches!(
            self,
            Instruction::LdByte { .. }
                | Instruction::AddByte { .. }
                | Instruction::LdReg { .. }
                | Instruction::Or { .. }
                | Instruction::And { .. }
                | Instruction::Xor { .. }
                | Instruction::AddReg { .. }
                | Instruction::SubReg { .. }
                | Instruction::Shr { .. }
                | Instruction::SubnReg { .. }
                | Instruction::Shl { .. }
                | Instruction::Rnd { .. }
                | Instruction::LdVxDt { .. }
        )
    }

    /// Every operand lies within its field: register numbers and `n` below
    /// 16, addresses below 4096.
    pub open spec fn operands_in_range(self) -> bool {
        match self {
            Instruction::Cls | Instruction::Ret | Instruction::Unknown { .. } => true,
            Instruction::Jp { addr }
            | Instruction::Call { addr }
            | Instruction::LdI { addr }
            | Instruction::JpV0 { addr } => addr < 0x1000,
            Instruction::SeByte { x, .. }
            | Instruction::SneByte { x, .. }
            | Instruction::LdByte { x, .. }
            | Instruction::AddByte { x, .. }
            | Instruction::Rnd { x, .. }
            | Instruction::Shr { x }
            | Instruction::Shl { x }
            | Instruction::Skp { x }
            | Instruction::Sknp { x }
            | Instruction::LdVxDt { x }
            | Instruction::LdVxKey { x }
            | Instruction::LdDtVx { x }
            | Instruction::LdStVx { x }
            | Instruction::AddI { x }
            | Instruction::LdFont { x }
            | Instruction::LdBcd { x }
            | Instruction::StoreRegs { x }
            | Instruction::LoadRegs { x } => x < 16,
            Instruction::SeReg { x, y }
            | Instruction::LdReg { x, y }
            | Instruction::Or { x, y }
            | Instruction::And { x, y }
            | Instruction::Xor { x, y }
            | Instruction::AddReg { x, y }
            | Instruction::SubReg { x, y }
            | Instruction::SubnReg { x, y }
            | Instruction::SneReg { x, y } => x < 16 && y < 16,
            Instruction::Drw { x, y, n } => x < 16 && y < 16 && n < 16,
        }
    }
}

/// Whatever the word, the operands of its instruction lie within their
/// fields.
pub proof fn lemma_decode_in_range(word: u16)
    ensures
        decode_spec(word).operands_in_range(),
{
}

/// Splits `word` into its fields and names the instruction it stands for.
pub fn decode(word: u16) -> (instruction: Instruction)
    ensures
        instruction == decode_spec(word),
        instruction.operands_in_range(),
{
    let op: u8 = (word >> 12) as u8;
    let x: u8 = ((word >> 8) & 0x0F) as u8;
    let y: u8 = ((word >> 4) & 0x0F) as u8;
    let n: u8 = (word & 0x000F) as u8;
    let byte: u8 = (word & 0x00FF) as u8;
    let addr: u16 = word & 0x0FFF;
    proof {
        assert(word >> 12 == word / 0x1000) by (bit_vector);
        assert((word >> 8) & 0x0F == (word / 0x100) % 0x10) by (bit_vector);
        assert((word >> 4) & 0x0F == (word / 0x10) % 0x10) by (bit_vector);
        assert(word & 0x000F == word % 0x10) by (bit_vector);
        assert(word & 0x00FF == word % 0x100) by (bit_vector);
        assert(word & 0x0FFF == word % 0x1000) by (bit_vector);
        lemma_decode_in_range(word);
    }
    match (op, x, y, n) {
        (0x0, 0x0, 0xE, 0x0) => Instruction::Cls,
        (0x0, 0x0, 0xE, 0xE) => Instruction::Ret,
        (0x1, _, _, _) => Instruction::Jp { addr },
        (0x2, _, _, _) => Instruction::Call { addr },
        (0x3, _, _, _) => Instruction::SeByte { x, byte },
        (0x4, _, _, _) => Instruction::SneByte { x, byte },
        (0x5, _, _, 0x0) => Instruction::SeReg { x, y },
        (0x6, _, _, _) => Instruction::LdByte { x, byte },
        (0x7, _, _, _) => Instruction::AddByte { x, byte },
        (0x8, _, _, 0x0) => Instruction::LdReg { x, y },
        (0x8, _, _, 0x1) => Instruction::Or { x, y },
        (0x8, _, _, 0x2) => Instruction::And { x, y },
        (0x8, _, _, 0x3) => Instruction::Xor { x, y },
        (0x8, _, _, 0x4) => Instruction::AddReg { x, y },
        (0x8, _, _, 0x5) => Instruction::SubReg { x, y },
        (0x8, _, _, 0x6) => Instruction::Shr { x },
        (0x8, _, _, 0x7) => Instruction::SubnReg { x, y },
        (0x8, _, _, 0xE) => Instruction::Shl { x },
        (0x9, _, _, 0x0) => Instruction::SneReg { x, y },
        (0xA, _, _, _) => Instruction::LdI { addr },
        (0xB, _, _, _) => Instruction::JpV0 { addr },
        (0xC, _, _, _) => Instruction::Rnd { x, byte },
        (0xD, _, _, _) => Instruction::Drw { x, y, n },
        (0xE, _, 0x9, 0xE) => Instruction::Skp { x },
        (0xE, _, 0xA, 0x1) => Instruction::Sknp { x },
        (0xF, _, 0x0, 0x7) => Instruction::LdVxDt { x },
        (0xF, _, 0x0, 0xA) => Instruction::LdVxKey { x },
        (0xF, _, 0x1, 0x5) => Instruction::LdDtVx { x },
        (0xF, _, 0x1, 0x8) => Instruction::LdStVx { x },
        (0xF, _, 0x1, 0xE) => Instruction::AddI { x },
        (0xF, _, 0x2, 0x9) => Instruction::LdFont { x },
        (0xF, _, 0x3, 0x3) => Instruction::LdBcd { x },
        (0xF, _, 0x5, 0x5) => Instruction::StoreRegs { x },
        (0xF, _, 0x6, 0x5) => Instruction::LoadRegs { x },
        _ => Instruction::Unknown { word },
    }
}

} // verus!

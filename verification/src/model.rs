//! The mathematical model of the machine.
//!
//! [`MachineState`] holds the whole state of a machine as plain mathematical
//! values, and the functions on it say what each operation does to that
//! state. The executable machine is specified against this model, and the
//! laws of the instruction set are proved of it.

use crate::display::{blank, collides, drawn, is_grid};
use crate::font::{sprite_addr, with_fonts};
use crate::instruction::{decode_spec, Instruction};
use crate::keypad::{Key, KeyState, KeypadView};
use vstd::prelude::*;

verus! {

/// The number of bytes of memory.
pub const MEMORY_SIZE: usize = 4096;

/// The address at which programs are loaded and begin to run.
pub const INITIAL_PC: u16 = 0x200;

/// The longest program that fits between [`INITIAL_PC`] and the end of
/// memory.
pub const MAX_ROM_SIZE: usize = 3584;

/// The number of return addresses that the call stack can hold.
pub const STACK_SIZE: usize = 16;

/// The number of the flag register, `VF`.
pub const FLAG: u8 = 0xF;

/// A condition under which the machine refuses to run an instruction. The
/// machine is left exactly as it was.
#[derive(Debug, PartialEq, Eq, Clone, Copy, Structural)]
pub enum Fault {
    /// The program counter does not address two bytes inside memory, or a
    /// skip or a rewind would take it out of its sixteen bits.
    PcOutOfRange,
    /// A call was made with sixteen calls already active.
    StackOverflow,
    /// A return was made with no call active.
    StackUnderflow,
    /// An instruction addressed memory through `I` at or beyond the end of
    /// memory.
    MemoryOutOfRange,
}

impl Fault {
    /// The text of [`Fault::message`].
    pub open spec fn spec_message(self) -> Seq<char> {
        match self {
            Fault::PcOutOfRange => "program counter out of range"@,
            Fault::StackOverflow => "call stack overflow"@,
            Fault::StackUnderflow => "return with an empty call stack"@,
            Fault::MemoryOutOfRange => "memory access out of range"@,
        }
    }

    /// A short description of the fault.
    pub fn message(&self) -> (text: &'static str)
        ensures
            text@ == self.spec_message(),
    {
        match self {
            Fault::PcOutOfRange => "program counter out of range",
            Fault::StackOverflow => "call stack overflow",
            Fault::StackUnderflow => "return with an empty call stack",
            Fault::MemoryOutOfRange => "memory access out of range",
        }
    }
}

/// The low eight bits of `value`.
pub open spec fn wrap8(value: int) -> u8 {
    (value % 0x100) as u8
}

/// The low sixteen bits of `value`.
pub open spec fn wrap16(value: int) -> u16 {
    (value % 0x1_0000) as u16
}

/// One for `true`, zero for `false`.
pub open spec fn flag_of(condition: bool) -> u8 {
    if condition {
        1
    } else {
        0
    }
}

/// The whole state of a machine.
#[verifier::ext_equal]
pub struct MachineState {
    /// The 4096 bytes of memory.
    pub memory: Seq<u8>,
    /// The pixels, `display[x][y]` being column `x` of row `y`.
    pub display: Seq<Seq<bool>>,
    /// The program counter.
    pub pc: u16,
    /// The index register `I`.
    pub i: u16,
    /// The return addresses of the active calls, the innermost last.
    pub stack: Seq<u16>,
    /// The delay timer.
    pub delay_timer: u8,
    /// The sound timer.
    pub sound_timer: u8,
    /// The registers `V0` to `VF`.
    pub v: Seq<u8>,
    /// The keypad.
    pub keypad: KeypadView,
}

impl MachineState {
    /// The shape that every machine state has.
    pub open spec fn wf(self) -> bool {
        &&& self.memory.len() == MEMORY_SIZE
        &&& is_grid(self.display)
        &&& self.stack.len() <= STACK_SIZE
        &&& self.v.len() == 16
        &&& self.keypad.wf()
    }

    /// The state of a new machine: memory zeroed but for the font, display
    /// blank, the program counter at [`INITIAL_PC`], everything else zero.
    pub open spec fn initial() -> MachineState {
        MachineState {
            memory: with_fonts(Seq::new(MEMORY_SIZE as nat, |a: int| 0u8)),
            display: blank(),
            pc: INITIAL_PC,
            i: 0,
            stack: Seq::empty(),
            delay_timer: 0,
            sound_timer: 0,
            v: Seq::new(16, |k: int| 0u8),
            keypad: KeypadView::initial(),
        }
    }

    /// The state with `rom` copied into memory from [`INITIAL_PC`] onwards.
    pub open spec fn with_rom(self, rom: Seq<u8>) -> MachineState {
        MachineState {
            memory: Seq::new(
                self.memory.len(),
                |a: int|
                    if INITIAL_PC <= a < INITIAL_PC + rom.len() {
                        rom[a - INITIAL_PC]
                    } else {
                        self.memory[a]
                    },
            ),
            ..self
        }
    }

    /// The state after the host has reported `key` to be in `state`.
    pub open spec fn set_key(self, key: Key, state: KeyState) -> MachineState {
        MachineState { keypad: self.keypad.set(key, state), ..self }
    }

    /// The state after both timers have counted down once, stopping at zero.
    pub open spec fn tick_timers(self) -> MachineState {
        MachineState {
            delay_timer: if self.delay_timer > 0 {
                (self.delay_timer - 1) as u8
            } else {
                0
            },
            sound_timer: if self.sound_timer > 0 {
                (self.sound_timer - 1) as u8
            } else {
                0
            },
            ..self
        }
    }

    /// Whether the sound timer is running.
    pub open spec fn sounding(self) -> bool {
        self.sound_timer > 0
    }

    /// Whether the program counter addresses two bytes inside memory.
    pub open spec fn can_fetch(self) -> bool {
        self.pc + 1 < MEMORY_SIZE
    }

    /// The big-endian word at the program counter.
    pub open spec fn current_word(self) -> u16 {
        (self.memory[self.pc as int] * 0x100 + self.memory[self.pc + 1]) as u16
    }

    /// The state with the program counter moved past the current word.
    pub open spec fn after_fetch(self) -> MachineState {
        MachineState { pc: (self.pc + 2) as u16, ..self }
    }

    /// The value of register `x`.
    pub open spec fn reg(self, x: u8) -> u8 {
        self.v[x as int]
    }

    /// The state with register `x` set to `value`.
    pub open spec fn set_reg(self, x: u8, value: u8) -> MachineState {
        MachineState { v: self.v.update(x as int, value), ..self }
    }

    /// The state with the program counter set to `pc`.
    pub open spec fn jump(self, pc: u16) -> MachineState {
        MachineState { pc, ..self }
    }

    /// The state with the index register set to `i`.
    pub open spec fn set_i(self, i: u16) -> MachineState {
        MachineState { i, ..self }
    }

    /// The key that register `x` names.
    pub open spec fn key_of(self, x: u8) -> Key {
        Key::spec_from_code(self.reg(x))
    }

    /// Whether `instruction` is a conditional skip whose condition holds.
    pub open spec fn skips(self, instruction: Instruction) -> bool {
        match instruction {
            Instruction::SeByte { x, byte } => self.reg(x) == byte,
            Instruction::SneByte { x, byte } => self.reg(x) != byte,
            Instruction::SeReg { x, y } => self.reg(x) == self.reg(y),
            Instruction::SneReg { x, y } => self.reg(x) != self.reg(y),
            Instruction::Skp { x } => self.keypad.states[self.key_of(x)] == KeyState::Down,
            Instruction::Sknp { x } => self.keypad.states[self.key_of(x)] == KeyState::Up,
            _ => false,
        }
    }

    /// The bytes of the sprite that a draw of `n` rows reads.
    pub open spec fn sprite(self, n: u8) -> Seq<u8> {
        self.memory.subrange(self.i as int, self.i + n)
    }

    /// The reason, if there is one, for which the machine refuses to run
    /// `instruction` in this state.
    pub open spec fn fault(self, instruction: Instruction) -> Option<Fault> {
        match instruction {
            Instruction::Ret => if self.stack.len() == 0 {
                Some(Fault::StackUnderflow)
            } else {
                None
            },
            Instruction::Call { .. } => if self.stack.len() >= STACK_SIZE {
                Some(Fault::StackOverflow)
            } else {
                None
            },
            Instruction::SeByte { .. }
            | Instruction::SneByte { .. }
            | Instruction::SeReg { .. }
            | Instruction::SneReg { .. }
            | Instruction::Skp { .. }
            | Instruction::Sknp { .. } => if self.skips(instruction) && self.pc + 2 > u16::MAX {
                Some(Fault::PcOutOfRange)
            } else {
                None
            },
            Instruction::LdVxKey { .. } => if self.keypad.released.len() == 0 && self.pc < 2 {
                Some(Fault::PcOutOfRange)
            } else {
                None
            },
            Instruction::Drw { n, .. } => if self.i + n > MEMORY_SIZE {
                Some(Fault::MemoryOutOfRange)
            } else {
                None
            },
            Instruction::LdBcd { .. } => if self.i + 3 > MEMORY_SIZE {
                Some(Fault::MemoryOutOfRange)
            } else {
                None
            },
            Instruction::StoreRegs { x } | Instruction::LoadRegs { x } => if self.i + x + 1
                > MEMORY_SIZE {
                Some(Fault::MemoryOutOfRange)
            } else {
                None
            },
            _ => None,
        }
    }

    /// The state after `instruction` has run, in a state in which it has no
    /// fault. The program counter is taken to stand behind the instruction
    /// already; `random` is the byte that a random instruction draws.
    pub open spec fn apply(self, instruction: Instruction, random: u8) -> MachineState {
        match instruction {
            Instruction::Cls => MachineState { display: blank(), ..self },
            Instruction::Ret => MachineState {
                pc: self.stack.last(),
                stack: self.stack.drop_last(),
                ..self
            },
            Instruction::Jp { addr } => self.jump(addr),
            Instruction::Call { addr } => MachineState {
                pc: addr,
                stack: self.stack.push(self.pc),
                ..self
            },
            Instruction::SeByte { .. }
            | Instruction::SneByte { .. }
            | Instruction::SeReg { .. }
            | Instruction::SneReg { .. }
            | Instruction::Skp { .. }
            | Instruction::Sknp { .. } => if self.skips(instruction) {
                self.jump((self.pc + 2) as u16)
            } else {
                self
            },
            Instruction::LdByte { x, byte } => self.set_reg(x, byte),
            Instruction::AddByte { x, byte } => self.set_reg(x, wrap8(self.reg(x) + byte)),
            Instruction::LdReg { x, y } => self.set_reg(x, self.reg(y)),
            Instruction::Or { x, y } => self.set_reg(x, self.reg(x) | self.reg(y)),
            Instruction::And { x, y } => self.set_reg(x, self.reg(x) & self.reg(y)),
            Instruction::Xor { x, y } => self.set_reg(x, self.reg(x) ^ self.reg(y)),
            Instruction::AddReg { x, y } => self.set_reg(
                x,
                wrap8(self.reg(x) + self.reg(y)),
            ).set_reg(FLAG, flag_of(self.reg(x) + self.reg(y) > 0xFF)),
            Instruction::SubReg { x, y } => self.set_reg(
                x,
                wrap8(self.reg(x) - self.reg(y)),
            ).set_reg(FLAG, flag_of(self.reg(x) >= self.reg(y))),
            Instruction::Shr { x } => self.set_reg(x, (self.reg(x) / 2) as u8).set_reg(
                FLAG,
                (self.reg(x) % 2) as u8,
            ),
            Instruction::SubnReg { x, y } => self.set_reg(
                x,
                wrap8(self.reg(y) - self.reg(x)),
            ).set_reg(FLAG, flag_of(self.reg(y) >= self.reg(x))),
            Instruction::Shl { x } => self.set_reg(x, wrap8(self.reg(x) * 2)).set_reg(
                FLAG,
                (self.reg(x) / 0x80) as u8,
            ),
            Instruction::LdI { addr } => self.set_i(addr),
            Instruction::JpV0 { addr } => self.jump((addr + self.reg(0)) as u16),
            Instruction::Rnd { x, byte } => self.set_reg(x, random & byte),
            Instruction::Drw { x, y, n } => {
                let x0 = self.reg(x) % 64;
                let y0 = self.reg(y) % 32;
                MachineState {
                    display: drawn(self.display, self.sprite(n), x0 as int, y0 as int),
                    ..self
                }.set_reg(
                    FLAG,
                    flag_of(collides(self.display, self.sprite(n), x0 as int, y0 as int)),
                )
            },
            Instruction::LdVxDt { x } => self.set_reg(x, self.delay_timer),
            Instruction::LdVxKey { x } => match self.keypad.first_released() {
                Some(key) => self.set_reg(x, key.spec_code()),
                None => self.jump((self.pc - 2) as u16),
            },
            Instruction::LdDtVx { x } => MachineState { delay_timer: self.reg(x), ..self },
            Instruction::LdStVx { x } => MachineState { sound_timer: self.reg(x), ..self },
            Instruction::AddI { x } => self.set_i(wrap16(self.i + self.reg(x))),
            Instruction::LdFont { x } => self.set_i(sprite_addr(self.reg(x))),
            Instruction::LdBcd { x } => MachineState {
                memory: self.memory.update(self.i as int, (self.reg(x) / 100) as u8).update(
                    self.i + 1,
                    ((self.reg(x) / 10) % 10) as u8,
                ).update(self.i + 2, (self.reg(x) % 10) as u8),
                ..self
            },
            Instruction::StoreRegs { x } => MachineState {
                memory: Seq::new(
                    self.memory.len(),
                    |a: int|
                        if self.i <= a <= self.i + x {
                            self.v[a - self.i]
                        } else {
                            self.memory[a]
                        },
                ),
                ..self
            },
            Instruction::LoadRegs { x } => MachineState {
                v: Seq::new(
                    self.v.len(),
                    |k: int|
                        if k <= x {
                            self.memory[self.i + k]
                        } else {
                            self.v[k]
                        },
                ),
                ..self
            },
            Instruction::Unknown { .. } => self,
        }
    }

    /// What running the instruction `word` does: the fault that refuses it,
    /// or the state that follows. The program counter is taken to stand
    /// behind the instruction already.
    pub open spec fn execute(self, word: u16, random: u8) -> Result<MachineState, Fault> {
        match self.fault(decode_spec(word)) {
            Some(fault) => Err(fault),
            None => Ok(self.apply(decode_spec(word), random)),
        }
    }

    /// The instruction that the next tick runs.
    pub open spec fn next_instruction(self) -> Instruction {
        decode_spec(self.current_word())
    }

    /// What one tick does: the word at the program counter is fetched, the
    /// program counter moves past it, the instruction runs, and the keypad's
    /// release queue is emptied. A tick that meets a fault changes nothing.
    pub open spec fn tick(self, random: u8) -> Result<MachineState, Fault> {
        if !self.can_fetch() {
            Err(Fault::PcOutOfRange)
        } else {
            match self.after_fetch().execute(self.current_word(), random) {
                Err(fault) => Err(fault),
                Ok(next) => Ok(
                    MachineState { keypad: next.keypad.clear_released(), ..next },
                ),
            }
        }
    }
}

} // verus!

//! The executable machine.
//!
//! [`Chip8`] owns the memory, the registers, the call stack, the timers, the
//! display and the keypad. The host drives it with [`Chip8::tick`], once per
//! instruction, and with [`Chip8::tick_timers`], sixty times a second, and
//! feeds key states into [`Chip8::keypad`] between ticks.
//!
//! Everything the machine does is stated against
//! [`MachineState`](crate::model::MachineState), its mathematical model.
//!
//! The machine never wraps an index round and never panics. Where a program
//! would read or write beyond memory, nest calls deeper than the stack holds,
//! return without a call, or run off the end of memory, the step is refused
//! with a [`Fault`] and the machine is left exactly as it was before it.

use crate::display::{blank, clear, draw_sprite, pixels};
use crate::font::{get_sprite_addr, load_fonts};
use crate::instruction::{decode, decode_spec, Instruction};
use crate::keypad::{Key, KeyState, Keypad};
use crate::model::{
    flag_of, wrap8, Fault, MachineState, FLAG, INITIAL_PC, MAX_ROM_SIZE, MEMORY_SIZE, STACK_SIZE,
};
use vstd::prelude::*;

verus! {

/// The reason for which a program was not loaded.
#[derive(Debug, PartialEq, Eq, Clone, Copy, Structural)]
pub enum LoadError {
    /// The program is longer than [`MAX_ROM_SIZE`] bytes.
    TooLarge,
}

impl LoadError {
    /// The text of [`LoadError::message`].
    pub open spec fn spec_message(self) -> Seq<char> {
        match self {
            LoadError::TooLarge => "ROM too large"@,
        }
    }

    /// A short description of the error.
    pub fn message(&self) -> (text: &'static str)
        ensures
            text@ == self.spec_message(),
    {
        match self {
            LoadError::TooLarge => "ROM too large",
        }
    }
}

/// Whether a machine that was in state `before` may answer `result` and be
/// left in state `after` when it runs the instruction `word` and a random
/// instruction draws `random`. A fault leaves the state as it was.
pub open spec fn executes_to(
    before: MachineState,
    word: u16,
    random: u8,
    result: Result<Instruction, Fault>,
    after: MachineState,
) -> bool {
    match result {
        Ok(decoded) => decoded == decode_spec(word) && before.execute(word, random) == Ok::<
            MachineState,
            Fault,
        >(after),
        Err(fault) => before.execute(word, random) == Err::<MachineState, Fault>(fault) && after
            == before,
    }
}

/// Whether a machine that was in state `before` may answer `result` and be
/// left in state `after` when it ticks and a random instruction draws
/// `random`. A fault leaves the state as it was.
pub open spec fn ticks_to(
    before: MachineState,
    random: u8,
    result: Result<Instruction, Fault>,
    after: MachineState,
) -> bool {
    match result {
        Ok(decoded) => decoded == before.next_instruction() && before.tick(random) == Ok::<
            MachineState,
            Fault,
        >(after),
        Err(fault) => before.tick(random) == Err::<MachineState, Fault>(fault) && after == before,
    }
}

/// A CHIP-8 machine.
#[derive(Debug)]
pub struct Chip8 {
    memory: [u8; 4096],
    /// The pixels, `display[x][y]` being column `x` of row `y`.
    pub display: [[bool; 32]; 64],
    pc: u16,
    i: u16,
    stack: [u16; 16],
    sp: u8,
    delay_timer: u8,
    sound_timer: u8,
    v: [u8; 16],
    /// The keypad, into which the host feeds the state of the keys.
    pub keypad: Keypad,
}

impl View for Chip8 {
    type V = MachineState;

    closed spec fn view(&self) -> MachineState {
        MachineState {
            memory: self.memory@,
            display: pixels(self.display),
            pc: self.pc,
            i: self.i,
            stack: self.stack@.subrange(0, self.sp as int),
            delay_timer: self.delay_timer,
            sound_timer: self.sound_timer,
            v: self.v@,
            keypad: self.keypad@,
        }
    }
}

impl Chip8 {
    /// The representation invariant: the stack pointer counts the active
    /// calls, at most sixteen, and the keypad is well formed.
    pub closed spec fn wf(&self) -> bool {
        &&& self.sp <= STACK_SIZE
        &&& self.keypad.wf()
    }

    /// The model of a well-formed machine is a well-formed state.
    pub proof fn lemma_view_wf(&self)
        requires
            self.wf(),
        ensures
            self@.wf(),
    {
        self.keypad.lemma_wf_view();
    }

    /// A machine with the font in low memory, ready to run a program from
    /// [`INITIAL_PC`].
    pub fn new() -> (machine: Chip8)
        ensures
            machine.wf(),
            machine@ == MachineState::initial(),
    {
        let mut c = Chip8 {
            memory: [0;4096],
            display: [[false;32];64],
            pc: INITIAL_PC,
            i: 0,
            stack: [0;16],
            sp: 0,
            delay_timer: 0,
            sound_timer: 0,
            v: [0;16],
            keypad: Keypad::new(),
        };
        assert(c.memory@ =~= Seq::new(MEMORY_SIZE as nat, |a: int| 0u8));
        load_fonts(&mut c.memory);
        proof {
            assert forall|x: int| 0 <= x < 64 implies #[trigger] pixels(c.display)[x] =~= blank()[
                x
            ] by {
                assert forall|y: int| 0 <= y < 32 implies pixels(c.display)[x][y] == blank()[x][y]
                by {
                    assert(!c.display[x][y]);
                }
            }
            assert(pixels(c.display) =~= blank());
            assert(c@.v =~= MachineState::initial().v);
            assert(c@.stack =~= MachineState::initial().stack);
            assert(c@ =~= MachineState::initial());
        }
        c
    }

    /// Copies the program `rom` into memory from [`INITIAL_PC`] onwards. A
    /// program longer than [`MAX_ROM_SIZE`] bytes is refused, and the machine
    /// is then left untouched.
    pub fn load_rom(&mut self, rom: &[u8]) -> (result: Result<(), LoadError>)
        requires
            old(self).wf(),
        ensures
            final(self).wf(),
            rom@.len() > MAX_ROM_SIZE ==> result == Err::<(), LoadError>(LoadError::TooLarge)
                && final(self)@ == old(self)@,
            rom@.len() <= MAX_ROM_SIZE ==> result == Ok::<(), LoadError>(()) && final(self)@
                == old(self)@.with_rom(rom@),
    {
        let size: usize = rom.len();
        if size > MAX_ROM_SIZE {
            return Err(LoadError::TooLarge);
        }
        let mut k: usize = 0;
        while k < size
            invariant
                k <= size,
                size == rom@.len(),
                size <= MAX_ROM_SIZE,
                self.wf(),
                forall|a: int|
                    0 <= a < 4096 ==> self.memory[a] == if INITIAL_PC <= a < INITIAL_PC + k {
                        rom@[a - INITIAL_PC]
                    } else {
                        old(self).memory[a]
                    },
                self.display == old(self).display,
                self.pc == old(self).pc,
                self.i == old(self).i,
                self.stack == old(self).stack,
                self.sp == old(self).sp,
                self.delay_timer == old(self).delay_timer,
                self.sound_timer == old(self).sound_timer,
                self.v == old(self).v,
                self.keypad == old(self).keypad,
            decreases size - k,
        {
            self.memory[INITIAL_PC as usize + k] = rom[k];
            k += 1;
        }
        assert(self@.memory =~= old(self)@.with_rom(rom@).memory);
        assert(self@ =~= old(self)@.with_rom(rom@));
        Ok(())
    }

    /// Records that `key` is now in `key_state`, as
    /// [`Keypad::set_key_state`] does on the machine's keypad. Nothing but
    /// the keypad changes.
    pub fn set_key_state(&mut self, key: Key, key_state: KeyState)
        requires
            old(self).wf(),
        ensures
            final(self).wf(),
            final(self)@ == old(self)@.set_key(key, key_state),
    {
        self.keypad.set_key_state(key, key_state);
    }

    /// Counts both timers down by one, stopping at zero.
    pub fn tick_timers(&mut self)
        requires
            old(self).wf(),
        ensures
            final(self).wf(),
            final(self)@ == old(self)@.tick_timers(),
    {
        if self.delay_timer > 0 {
            self.delay_timer -= 1;
        }
        if self.sound_timer > 0 {
            self.sound_timer -= 1;
        }
    }

    /// Whether the host should be sounding its tone: the sound timer has not
    /// run out.
    pub fn should_play_sound(&self) -> (sound: bool)
        ensures
            sound == self@.sounding(),
            sound <==> self@.sound_timer > 0,
    {
        self.sound_timer > 0
    }

    /// The program counter.
    pub fn pc(&self) -> (pc: u16)
        ensures
            pc == self@.pc,
    {
        self.pc
    }

    /// The index register `I`.
    pub fn index(&self) -> (i: u16)
        ensures
            i == self@.i,
    {
        self.i
    }

    /// The number of active calls.
    pub fn sp(&self) -> (depth: u8)
        requires
            self.wf(),
        ensures
            depth == self@.stack.len(),
    {
        self.sp
    }

    /// The delay timer.
    pub fn delay_timer(&self) -> (timer: u8)
        ensures
            timer == self@.delay_timer,
    {
        self.delay_timer
    }

    /// The sound timer.
    pub fn sound_timer(&self) -> (timer: u8)
        ensures
            timer == self@.sound_timer,
    {
        self.sound_timer
    }

    /// The registers `V0` to `VF`.
    pub fn registers(&self) -> (v: [u8; 16])
        ensures
            v@ == self@.v,
    {
        self.v
    }

    /// The pixels of the display.
    pub fn pixels(&self) -> (grid: &[[bool; 32]; 64])
        ensures
            pixels(*grid) == self@.display,
    {
        &self.display
    }

    /// The keypad.
    pub fn keys(&self) -> (keypad: &Keypad)
        ensures
            keypad@ == self@.keypad,
            self.wf() ==> keypad.wf(),
    {
        &self.keypad
    }

    /// The whole of memory.
    pub fn memory(&self) -> (memory: &[u8; 4096])
        ensures
            memory@ == self@.memory,
    {
        &self.memory
    }

    /// The word that the program counter points to, high byte first. There
    /// is none when the program counter does not address two bytes inside
    /// memory.
    pub fn current_instruction(&self) -> (result: Result<u16, Fault>)
        ensures
            self@.can_fetch() ==> result == Ok::<u16, Fault>(self@.current_word()),
            !self@.can_fetch() ==> result == Err::<u16, Fault>(Fault::PcOutOfRange),
    {
        if self.pc as usize + 1 >= MEMORY_SIZE {
            return Err(Fault::PcOutOfRange);
        }
        let high: u8 = self.memory[self.pc as usize];
        let low: u8 = self.memory[self.pc as usize + 1];
        assert((high as u16) << 8 | (low as u16) == high * 0x100 + low) by (bit_vector);
        Ok((high as u16) << 8 | (low as u16))
    }

    /// Reads the word at the program counter and moves the program counter
    /// past it. Nothing else changes; where there is no word to read, nothing
    /// changes at all.
    pub fn fetch(&mut self) -> (result: Result<u16, Fault>)
        requires
            old(self).wf(),
        ensures
            final(self).wf(),
            old(self)@.can_fetch() ==> result == Ok::<u16, Fault>(old(self)@.current_word())
                && final(self)@ == old(self)@.after_fetch(),
            !old(self)@.can_fetch() ==> result == Err::<u16, Fault>(Fault::PcOutOfRange)
                && final(self)@ == old(self)@,
    {
        let next_instruction = self.current_instruction()?;
        self.pc += 2;
        Ok(next_instruction)
    }

    /// Moves the program counter past the next instruction when `taken`.
    fn skip_when(&mut self, taken: bool) -> (result: Result<(), Fault>)
        requires
            old(self).wf(),
        ensures
            final(self).wf(),
            taken && old(self)@.pc + 2 > u16::MAX ==> result == Err::<(), Fault>(
                Fault::PcOutOfRange,
            ) && final(self)@ == old(self)@,
            taken && old(self)@.pc + 2 <= u16::MAX ==> result == Ok::<(), Fault>(()) && final(self)@
                == old(self)@.jump((old(self)@.pc + 2) as u16),
            !taken ==> result == Ok::<(), Fault>(()) && final(self)@ == old(self)@,
    {
        if taken {
            if self.pc > u16::MAX - 2 {
                return Err(Fault::PcOutOfRange);
            }
            self.pc += 2;
        }
        Ok(())
    }

    /// Sets register `x` to `value`.
    fn set_register(&mut self, x: u8, value: u8)
        requires
            old(self).wf(),
            x < 16,
        ensures
            final(self).wf(),
            final(self)@ == old(self)@.set_reg(x, value),
    {
        self.v[x as usize] = value;
    }

    /// Sets register `x` to `value` and then the flag register to `flag`.
    fn set_register_and_flag(&mut self, x: u8, value: u8, flag: u8)
        requires
            old(self).wf(),
            x < 16,
        ensures
            final(self).wf(),
            final(self)@ == old(self)@.set_reg(x, value).set_reg(FLAG, flag),
    {
        self.v[x as usize] = value;
        self.v[0xF] = flag;
    }

    /// Stores the registers `V0..=Vx` in memory from `I` onwards.
    fn store_registers(&mut self, x: u8)
        requires
            old(self).wf(),
            x < 16,
            old(self)@.i + x + 1 <= MEMORY_SIZE,
        ensures
            final(self).wf(),
            final(self)@ == old(self)@.apply(Instruction::StoreRegs { x }, 0),
    {
        let base: usize = self.i as usize;
        let mut k: usize = 0;
        while k <= x as usize
            invariant
                k <= x + 1,
                x < 16,
                base == old(self).i,
                base + x + 1 <= MEMORY_SIZE,
                self.wf(),
                forall|a: int|
                    0 <= a < 4096 ==> #[trigger] self.memory[a] == if base <= a < base + k {
                        old(self).v[a - base]
                    } else {
                        old(self).memory[a]
                    },
                self.display == old(self).display,
                self.pc == old(self).pc,
                self.i == old(self).i,
                self.stack == old(self).stack,
                self.sp == old(self).sp,
                self.delay_timer == old(self).delay_timer,
                self.sound_timer == old(self).sound_timer,
                self.v == old(self).v,
                self.keypad == old(self).keypad,
            decreases x + 1 - k,
        {
            self.memory[base + k] = self.v[k];
            k += 1;
        }
        assert(self@.memory =~= old(self)@.apply(Instruction::StoreRegs { x }, 0).memory);
        assert(self@ =~= old(self)@.apply(Instruction::StoreRegs { x }, 0));
    }

    /// Loads the registers `V0..=Vx` from memory from `I` onwards.
    fn load_registers(&mut self, x: u8)
        requires
            old(self).wf(),
            x < 16,
            old(self)@.i + x + 1 <= MEMORY_SIZE,
        ensures
            final(self).wf(),
            final(self)@ == old(self)@.apply(Instruction::LoadRegs { x }, 0),
    {
        let base: usize = self.i as usize;
        let mut k: usize = 0;
        while k <= x as usize
            invariant
                k <= x + 1,
                x < 16,
                base == old(self).i,
                base + x + 1 <= MEMORY_SIZE,
                self.wf(),
                forall|r: int|
                    0 <= r < 16 ==> #[trigger] self.v[r] == if r < k {
                        old(self).memory[base + r]
                    } else {
                        old(self).v[r]
                    },
                self.display == old(self).display,
                self.pc == old(self).pc,
                self.i == old(self).i,
                self.stack == old(self).stack,
                self.sp == old(self).sp,
                self.delay_timer == old(self).delay_timer,
                self.sound_timer == old(self).sound_timer,
                self.memory == old(self).memory,
                self.keypad == old(self).keypad,
            decreases x + 1 - k,
        {
            self.v[k] = self.memory[base + k];
            k += 1;
        }
        assert(self@.v =~= old(self)@.apply(Instruction::LoadRegs { x }, 0).v);
        assert(self@ =~= old(self)@.apply(Instruction::LoadRegs { x }, 0));
    }

    /// Draws the `n`-row sprite at `I` at the position that registers `x`
    /// and `y` give, and sets the flag register to the collision flag.
    fn draw(&mut self, x: u8, y: u8, n: u8)
        requires
            old(self).wf(),
            x < 16,
            y < 16,
            old(self)@.i + n <= MEMORY_SIZE,
        ensures
            final(self).wf(),
            final(self)@ == old(self)@.apply(Instruction::Drw { x, y, n }, 0),
    {
        let x0: u8 = self.v[x as usize] % 64;
        let y0: u8 = self.v[y as usize] % 32;
        let hit = draw_sprite(&mut self.display, &self.memory, self.i as usize, n, x0, y0);
        self.v[0xF] = if hit {
            1
        } else {
            0
        };
        assert(self@ =~= old(self)@.apply(Instruction::Drw { x, y, n }, 0));
    }

    /// Writes the three decimal digits of register `x` at `I`, `I+1`, `I+2`.
    fn store_bcd(&mut self, x: u8)
        requires
            old(self).wf(),
            x < 16,
            old(self)@.i + 3 <= MEMORY_SIZE,
        ensures
            final(self).wf(),
            final(self)@ == old(self)@.apply(Instruction::LdBcd { x }, 0),
    {
        let val: u8 = self.v[x as usize];
        self.memory[self.i as usize] = val / 100;
        self.memory[self.i as usize + 1] = (val / 10) % 10;
        self.memory[self.i as usize + 2] = val % 10;
        assert(self@ =~= old(self)@.apply(Instruction::LdBcd { x }, 0));
    }

    /// Runs an instruction that steers the program: a clear, a jump, a call,
    /// a return, a skip or a wait for a key.
    #[verifier::rlimit(50)]
    fn run_control(&mut self, instruction: Instruction) -> (result: Result<(), Fault>)
        requires
            old(self).wf(),
            instruction.operands_in_range(),
            instruction.is_control(),
        ensures
            final(self).wf(),
            match result {
                Ok(_) => old(self)@.fault(instruction) is None && final(self)@ == old(self)@.apply(
                    instruction,
                    0,
                ),
                Err(fault) => old(self)@.fault(instruction) == Some(fault) && final(self)@
                    == old(self)@,
            },
    {
        proof {
            self.lemma_view_wf();
        }
        match instruction {
            Instruction::Cls => {
                clear(&mut self.display);
            },
            Instruction::Ret => {
                if self.sp == 0 {
                    return Err(Fault::StackUnderflow);
                }
                self.sp -= 1;
                self.pc = self.stack[self.sp as usize];
                assert(self@.stack =~= old(self)@.stack.drop_last());
            },
            Instruction::Jp { addr } => {
                self.pc = addr;
            },
            Instruction::Call { addr } => {
                if self.sp as usize >= STACK_SIZE {
                    return Err(Fault::StackOverflow);
                }
                self.stack[self.sp as usize] = self.pc;
                self.sp += 1;
                self.pc = addr;
                assert(self@.stack =~= old(self)@.stack.push(old(self)@.pc));
            },
            Instruction::JpV0 { addr } => {
                self.pc = addr + self.v[0] as u16;
            },
            Instruction::SeByte { x, byte } => {
                let taken = self.v[x as usize] == byte;
                self.skip_when(taken)?;
            },
            Instruction::SneByte { x, byte } => {
                let taken = self.v[x as usize] != byte;
                self.skip_when(taken)?;
            },
            Instruction::SeReg { x, y } => {
                let taken = self.v[x as usize] == self.v[y as usize];
                self.skip_when(taken)?;
            },
            Instruction::SneReg { x, y } => {
                let taken = self.v[x as usize] != self.v[y as usize];
                self.skip_when(taken)?;
            },
            Instruction::Skp { x } => {
                let taken = self.keypad.is_key_down(Key::from_code(self.v[x as usize]));
                self.skip_when(taken)?;
            },
            Instruction::Sknp { x } => {
                let taken = self.keypad.is_key_up(Key::from_code(self.v[x as usize]));
                self.skip_when(taken)?;
            },
            Instruction::LdVxKey { x } => {
                if let Some(key) = self.keypad.get_first_key_released() {
                    self.set_register(x, key.code());
                } else {
                    if self.pc < 2 {
                        return Err(Fault::PcOutOfRange);
                    }
                    self.pc -= 2;
                }
            },
            _ => {},
        }
        assert(self@ =~= old(self)@.apply(instruction, 0));
        Ok(())
    }

    /// Runs an instruction that computes a register from registers, an
    /// immediate, the delay timer or the random byte.
    #[verifier::rlimit(50)]
    fn run_arithmetic(&mut self, instruction: Instruction, random_byte: u8)
        requires
            old(self).wf(),
            instruction.operands_in_range(),
            instruction.is_arithmetic(),
        ensures
            final(self).wf(),
            old(self)@.fault(instruction) is None,
            final(self)@ == old(self)@.apply(instruction, random_byte),
    {
        match instruction {
            Instruction::LdByte { x, byte } => {
                self.set_register(x, byte);
            },
            Instruction::AddByte { x, byte } => {
                let (sum, _) = add_with_carry(self.v[x as usize], byte);
                self.set_register(x, sum);
            },
            Instruction::LdReg { x, y } => {
                let value: u8 = self.v[y as usize];
                self.set_register(x, value);
            },
            Instruction::Or { x, y } => {
                let value: u8 = self.v[x as usize] | self.v[y as usize];
                self.set_register(x, value);
            },
            Instruction::And { x, y } => {
                let value: u8 = self.v[x as usize] & self.v[y as usize];
                self.set_register(x, value);
            },
            Instruction::Xor { x, y } => {
                let value: u8 = self.v[x as usize] ^ self.v[y as usize];
                self.set_register(x, value);
            },
            Instruction::AddReg { x, y } => {
                let (sum, carry) = add_with_carry(self.v[x as usize], self.v[y as usize]);
                self.set_register_and_flag(x, sum, carry);
            },
            Instruction::SubReg { x, y } => {
                let (difference, no_borrow) = subtract_with_borrow(
                    self.v[x as usize],
                    self.v[y as usize],
                );
                self.set_register_and_flag(x, difference, no_borrow);
            },
            Instruction::Shr { x } => {
                let (shifted, lsb) = shift_right(self.v[x as usize]);
                self.set_register_and_flag(x, shifted, lsb);
            },
            Instruction::SubnReg { x, y } => {
                let (difference, no_borrow) = subtract_with_borrow(
                    self.v[y as usize],
                    self.v[x as usize],
                );
                self.set_register_and_flag(x, difference, no_borrow);
            },
            Instruction::Shl { x } => {
                let (shifted, msb) = shift_left(self.v[x as usize]);
                self.set_register_and_flag(x, shifted, msb);
            },
            Instruction::Rnd { x, byte } => {
                self.set_register(x, random_byte & byte);
            },
            Instruction::LdVxDt { x } => {
                let value: u8 = self.delay_timer;
                self.set_register(x, value);
            },
            _ => {},
        }
    }

    /// Runs an instruction that works on the index register, on memory, on
    /// the display or on a timer, or that names no operation.
    #[verifier::rlimit(50)]
    fn run_memory(&mut self, instruction: Instruction) -> (result: Result<(), Fault>)
        requires
            old(self).wf(),
            instruction.operands_in_range(),
            !instruction.is_control(),
            !instruction.is_arithmetic(),
        ensures
            final(self).wf(),
            match result {
                Ok(_) => old(self)@.fault(instruction) is None && final(self)@ == old(self)@.apply(
                    instruction,
                    0,
                ),
                Err(fault) => old(self)@.fault(instruction) == Some(fault) && final(self)@
                    == old(self)@,
            },
    {
        proof {
            self.lemma_view_wf();
        }
        match instruction {
            Instruction::LdI { addr } => {
                self.i = addr;
            },
            Instruction::Drw { x, y, n } => {
                if self.i as usize + n as usize > MEMORY_SIZE {
                    return Err(Fault::MemoryOutOfRange);
                }
                self.draw(x, y, n);
            },
            Instruction::LdDtVx { x } => {
                self.delay_timer = self.v[x as usize];
            },
            Instruction::LdStVx { x } => {
                self.sound_timer = self.v[x as usize];
            },
            Instruction::AddI { x } => {
                self.i = self.i.wrapping_add(self.v[x as usize] as u16);
            },
            Instruction::LdFont { x } => {
                let sprite: u8 = self.v[x as usize];
                self.i = get_sprite_addr(sprite);
            },
            Instruction::LdBcd { x } => {
                if self.i as usize + 3 > MEMORY_SIZE {
                    return Err(Fault::MemoryOutOfRange);
                }
                self.store_bcd(x);
            },
            Instruction::StoreRegs { x } => {
                if self.i as usize + x as usize + 1 > MEMORY_SIZE {
                    return Err(Fault::MemoryOutOfRange);
                }
                self.store_registers(x);
            },
            Instruction::LoadRegs { x } => {
                if self.i as usize + x as usize + 1 > MEMORY_SIZE {
                    return Err(Fault::MemoryOutOfRange);
                }
                self.load_registers(x);
            },
            _ => {},
        }
        assert(self@ =~= old(self)@.apply(instruction, 0));
        Ok(())
    }

    /// Runs `instruction`, whose operands lie within their fields, with
    /// `random_byte` as the byte that a random instruction draws.
    fn run(&mut self, instruction: Instruction, random_byte: u8) -> (result: Result<(), Fault>)
        requires
            old(self).wf(),
            instruction.operands_in_range(),
        ensures
            final(self).wf(),
            match result {
                Ok(_) => old(self)@.fault(instruction) is None && final(self)@ == old(self)@.apply(
                    instruction,
                    random_byte,
                ),
                Err(fault) => old(self)@.fault(instruction) == Some(fault) && final(self)@
                    == old(self)@,
            },
    {
        match instruction {
            Instruction::Cls
            | Instruction::Ret
            | Instruction::Jp { .. }
            | Instruction::Call { .. }
            | Instruction::JpV0 { .. }
            | Instruction::SeByte { .. }
            | Instruction::SneByte { .. }
            | Instruction::SeReg { .. }
            | Instruction::SneReg { .. }
            | Instruction::Skp { .. }
            | Instruction::Sknp { .. }
            | Instruction::LdVxKey { .. } => self.run_control(instruction),
            Instruction::LdByte { .. }
            | Instruction::AddByte { .. }
            | Instruction::LdReg { .. }
            | Instruction::Or { .. }
            | Instruction::And { .. }
            | Instruction::Xor { .. }
            | Instruction::AddReg { .. }
            | Instruction::SubReg { .. }
            | Instruction::Shr { .. }
            | Instruction::SubnReg { .. }
            | Instruction::Shl { .. }
            | Instruction::Rnd { .. }
            | Instruction::LdVxDt { .. } => {
                self.run_arithmetic(instruction, random_byte);
                Ok(())
            },
            _ => self.run_memory(instruction),
        }
    }

    /// Runs the instruction `instruction` with `random_byte` as the byte that
    /// a random instruction draws, and returns the instruction as decoded.
    /// The program counter is taken to stand behind the instruction already.
    /// A word that names no operation changes nothing. An instruction that
    /// meets a fault changes nothing either.
    pub fn execute_with(&mut self, instruction: u16, random_byte: u8) -> (result: Result<
        Instruction,
        Fault,
    >)
        requires
            old(self).wf(),
        ensures
            final(self).wf(),
            executes_to(old(self)@, instruction, random_byte, result, final(self)@),
    {
        let decoded = decode(instruction);
        match self.run(decoded, random_byte) {
            Ok(_) => Ok(decoded),
            Err(fault) => Err(fault),
        }
    }

    /// Runs the instruction `instruction` as [`Chip8::execute_with`] does. A
    /// random instruction draws its byte from the random number generator;
    /// what any other instruction does is fixed by the state and the word.
    pub fn execute(&mut self, instruction: u16) -> (result: Result<Instruction, Fault>)
        requires
            old(self).wf(),
        ensures
            final(self).wf(),
            exists|random_byte: u8| #[trigger]
                executes_to(old(self)@, instruction, random_byte, result, final(self)@),
            !(decode_spec(instruction) is Rnd) ==> forall|random_byte: u8| #[trigger]
                executes_to(old(self)@, instruction, random_byte, result, final(self)@),
    {
        let random: u8 = match decode(instruction) {
            Instruction::Rnd { .. } => random_byte(),
            _ => 0,
        };
        let result = self.execute_with(instruction, random);
        assert(executes_to(old(self)@, instruction, random, result, self@));
        result
    }

    /// Runs one instruction cycle as [`Chip8::tick`] does, with `random_byte`
    /// as the byte that a random instruction draws.
    pub fn tick_with(&mut self, random_byte: u8) -> (result: Result<Instruction, Fault>)
        requires
            old(self).wf(),
        ensures
            final(self).wf(),
            ticks_to(old(self)@, random_byte, result, final(self)@),
    {
        let start: u16 = self.pc;
        let next_instr = self.fetch()?;
        match self.execute_with(next_instr, random_byte) {
            Ok(decoded) => {
                self.keypad.clear_keys_released();
                Ok(decoded)
            },
            Err(fault) => {
                self.pc = start;
                assert(self@ =~= old(self)@);
                Err(fault)
            },
        }
    }

    /// Runs one instruction cycle: fetches the word at the program counter,
    /// moves the program counter past it, runs the instruction, and empties
    /// the keypad's release queue. Returns the instruction as decoded. A tick
    /// that meets a fault leaves the machine exactly as it was.
    ///
    /// A random instruction draws its byte from the random number generator;
    /// what any other tick does is fixed by the state.
    pub fn tick(&mut self) -> (result: Result<Instruction, Fault>)
        requires
            old(self).wf(),
        ensures
            final(self).wf(),
            exists|random_byte: u8| #[trigger]
                ticks_to(old(self)@, random_byte, result, final(self)@),
            !(old(self)@.can_fetch() && old(self)@.next_instruction() is Rnd) ==> forall|
                random_byte: u8,
            | #[trigger] ticks_to(old(self)@, random_byte, result, final(self)@),
    {
        let random: u8 = match self.current_instruction() {
            Ok(word) => match decode(word) {
                Instruction::Rnd { .. } => random_byte(),
                _ => 0,
            },
            Err(_) => 0,
        };
        let result = self.tick_with(random);
        assert(ticks_to(old(self)@, random, result, self@));
        result
    }
}

/// The low eight bits of `a + b`, and 1 if the sum does not fit in eight
/// bits, else 0.
fn add_with_carry(a: u8, b: u8) -> (result: (u8, u8))
    ensures
        result.0 == wrap8(a + b),
        result.1 == flag_of(a + b > 0xFF),
{
    let carry: u8 = if a as u16 + b as u16 > 0xFF {
        1
    } else {
        0
    };
    (a.wrapping_add(b), carry)
}

/// The low eight bits of `a - b`, and 1 if nothing had to be borrowed, else
/// 0.
fn subtract_with_borrow(a: u8, b: u8) -> (result: (u8, u8))
    ensures
        result.0 == wrap8(a - b),
        result.1 == flag_of(a >= b),
{
    let no_borrow: u8 = if a >= b {
        1
    } else {
        0
    };
    (a.wrapping_sub(b), no_borrow)
}

/// `a` shifted right by one, and the bit that fell out.
fn shift_right(a: u8) -> (result: (u8, u8))
    ensures
        result.0 == a / 2,
        result.1 == a % 2,
{
    assert(a & 1 == a % 2 && a >> 1 == a / 2) by (bit_vector);
    (a >> 1, a & 1)
}

/// `a` shifted left by one within eight bits, and the bit that fell out.
fn shift_left(a: u8) -> (result: (u8, u8))
    ensures
        result.0 == wrap8(a * 2),
        result.1 == a / 0x80,
{
    assert((a >> 7) & 1 == a / 0x80 && a << 1 == (a * 2) % 0x100) by (bit_vector);
    (a << 1, (a >> 7) & 1)
}

/// A byte from the thread-local random number generator, `rand::random`.
/// Nothing is claimed of its value.
#[verifier::external_body]
fn random_byte() -> u8 {
    rand::random::<u8>()
}

} // verus!

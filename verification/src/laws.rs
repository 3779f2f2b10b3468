//! Laws of the instruction set, proved of the model.

use crate::display::{collides, drawn, is_grid, sprite_covers};
use crate::instruction::Instruction;
use crate::model::{wrap8, Fault, MachineState, FLAG, MAX_ROM_SIZE};
use vstd::prelude::*;

verus! {

/// Running an instruction that has no fault takes a well-formed state to a
/// well-formed state.
#[verifier::rlimit(50)]
pub proof fn lemma_apply_preserves_wf(s: MachineState, instruction: Instruction, random: u8)
    requires
        s.wf(),
        instruction.operands_in_range(),
        s.fault(instruction) is None,
    ensures
        s.apply(instruction, random).wf(),
{
}

/// A tick takes a well-formed state to a well-formed state.
#[verifier::rlimit(50)]
pub proof fn lemma_tick_preserves_wf(s: MachineState, random: u8)
    requires
        s.wf(),
    ensures
        s.tick(random) matches Ok(next) ==> next.wf(),
{
    crate::instruction::lemma_decode_in_range(s.current_word());
    if s.tick(random) is Ok {
        lemma_apply_preserves_wf(s.after_fetch(), s.next_instruction(), random);
    }
}

/// The random byte matters to the random instruction alone: every other
/// instruction does the same whatever the byte.
#[verifier::rlimit(50)]
pub proof fn lemma_random_matters_to_rnd_alone(
    s: MachineState,
    instruction: Instruction,
    a: u8,
    b: u8,
)
    requires
        !(instruction is Rnd),
    ensures
        s.apply(instruction, a) == s.apply(instruction, b),
{
}

/// A word that names no operation leaves the state as it is; a tick that
/// meets one moves the program counter past it and empties the release
/// queue, and does nothing else.
pub proof fn lemma_unknown_is_no_op(s: MachineState, word: u16, random: u8)
    requires
        s.wf(),
        s.can_fetch(),
        s.next_instruction() == (Instruction::Unknown { word }),
    ensures
        s.fault(Instruction::Unknown { word }) is None,
        s.apply(Instruction::Unknown { word }, random) == s,
        s.tick(random) == Ok::<MachineState, Fault>(
            MachineState { keypad: s.keypad.clear_released(), ..s.after_fetch() },
        ),
{
}

/// The display is changed by the clear and the draw instructions alone.
#[verifier::rlimit(50)]
pub proof fn lemma_display_changes_by_cls_and_drw_alone(
    s: MachineState,
    instruction: Instruction,
    random: u8,
)
    requires
        !(instruction is Cls),
        !(instruction is Drw),
    ensures
        s.apply(instruction, random).display == s.display,
{
}

/// After a tick that meets no fault the release queue is empty, whatever the
/// instruction was, and the state of every key is as it was.
pub proof fn lemma_tick_drains_releases(s: MachineState, random: u8)
    requires
        s.wf(),
    ensures
        s.tick(random) matches Ok(next) ==> next.keypad.released.len() == 0 && next.keypad.states
            == s.keypad.states,
{
}

/// Adding the same byte to a register twice adds twice the byte modulo 256,
/// and changes nothing else: no flag is set.
pub proof fn lemma_add_byte_twice(s: MachineState, x: u8, byte: u8, random: u8)
    requires
        s.wf(),
        x < 16,
    ensures
        s.fault(Instruction::AddByte { x, byte }) is None,
        s.apply(Instruction::AddByte { x, byte }, random).apply(
            Instruction::AddByte { x, byte },
            random,
        ) == s.set_reg(x, wrap8(s.reg(x) + 2 * byte)),
        x != FLAG ==> s.apply(Instruction::AddByte { x, byte }, random).apply(
            Instruction::AddByte { x, byte },
            random,
        ).reg(FLAG) == s.reg(FLAG),
{
    let once = s.apply(Instruction::AddByte { x, byte }, random);
    let twice = once.apply(Instruction::AddByte { x, byte }, random);
    assert(twice.v =~= s.set_reg(x, wrap8(s.reg(x) + 2 * byte)).v);
}

/// A call followed at once by a return leaves the state as it was before
/// the call: the program counter is back behind the call instruction, and
/// the stack is as deep as it was.
pub proof fn lemma_call_then_ret(s: MachineState, addr: u16, random: u8)
    requires
        s.wf(),
        s.fault(Instruction::Call { addr }) is None,
    ensures
        s.apply(Instruction::Call { addr }, random).pc == addr,
        s.apply(Instruction::Call { addr }, random).fault(Instruction::Ret) is None,
        s.apply(Instruction::Call { addr }, random).apply(Instruction::Ret, random) == s,
{
    let called = s.apply(Instruction::Call { addr }, random);
    let back = called.apply(Instruction::Ret, random);
    assert(back.stack =~= s.stack);
}

/// A tick that calls, followed by a tick that returns, leaves the program
/// counter at the instruction after the call, and the stack as it was.
pub proof fn lemma_call_tick_then_ret_tick(s: MachineState, addr: u16, random: u8)
    requires
        s.wf(),
        s.can_fetch(),
        s.next_instruction() == (Instruction::Call { addr }),
        s.stack.len() < 16,
        s.tick(random) matches Ok(called) && called.can_fetch() && called.next_instruction()
            == Instruction::Ret,
    ensures
        s.tick(random) matches Ok(called) && called.pc == addr && (called.tick(random) matches Ok(
            back,
        ) && back.pc == s.pc + 2 && back.stack == s.stack),
{
    let called = s.tick(random)->Ok_0;
    let back = called.tick(random)->Ok_0;
    assert(called.stack =~= s.stack.push((s.pc + 2) as u16));
    assert(back.stack =~= s.stack);
}

/// A pixel that lies outside the eight columns and the rows of a sprite is
/// not changed by drawing it: a sprite that reaches past the right or the
/// bottom edge is cut off, and never comes back in at the other side.
pub proof fn lemma_draw_leaves_outside_alone(
    grid: Seq<Seq<bool>>,
    rows: Seq<u8>,
    x0: int,
    y0: int,
    px: int,
    py: int,
)
    requires
        is_grid(grid),
        0 <= px < 64,
        0 <= py < 32,
        px < x0 || px >= x0 + 8 || py < y0 || py >= y0 + rows.len(),
    ensures
        drawn(grid, rows, x0, y0)[px][py] == grid[px][py],
{
}

/// Drawing a sprite twice at the same place leaves the display as it was,
/// and the second draw collides exactly where the first one lit a pixel.
pub proof fn lemma_draw_twice_restores(grid: Seq<Seq<bool>>, rows: Seq<u8>, x0: int, y0: int)
    requires
        is_grid(grid),
    ensures
        drawn(drawn(grid, rows, x0, y0), rows, x0, y0) == grid,
        collides(drawn(grid, rows, x0, y0), rows, x0, y0) <==> exists|px: int, py: int|
            0 <= px < 64 && 0 <= py < 32 && !grid[px][py] && #[trigger] sprite_covers(
                rows,
                x0,
                y0,
                px,
                py,
            ),
{
    let once = drawn(grid, rows, x0, y0);
    let twice = drawn(once, rows, x0, y0);
    assert forall|px: int| 0 <= px < 64 implies #[trigger] twice[px] =~= grid[px] by {
        assert(grid[px].len() == 32);
    }
    assert(twice =~= grid);
    if collides(once, rows, x0, y0) {
        let (wx, wy) = choose|wx: int, wy: int|
            0 <= wx < 64 && 0 <= wy < 32 && once[wx][wy] && #[trigger] sprite_covers(
                rows,
                x0,
                y0,
                wx,
                wy,
            );
        assert(!grid[wx][wy] && sprite_covers(rows, x0, y0, wx, wy));
    }
    if exists|px: int, py: int|
        0 <= px < 64 && 0 <= py < 32 && !grid[px][py] && #[trigger] sprite_covers(
            rows,
            x0,
            y0,
            px,
            py,
        ) {
        let (wx, wy) = choose|wx: int, wy: int|
            0 <= wx < 64 && 0 <= wy < 32 && !grid[wx][wy] && #[trigger] sprite_covers(
                rows,
                x0,
                y0,
                wx,
                wy,
            );
        assert(once[wx][wy] && sprite_covers(rows, x0, y0, wx, wy));
    }
}

/// While no key has been released, a tick at a wait-for-key instruction
/// changes nothing: the program counter stays on the instruction, which runs
/// again at the next tick.
pub proof fn lemma_wait_for_key_holds(s: MachineState, x: u8, random: u8)
    requires
        s.wf(),
        s.can_fetch(),
        s.next_instruction() == (Instruction::LdVxKey { x }),
        s.keypad.released.len() == 0,
    ensures
        s.tick(random) == Ok::<MachineState, Fault>(s),
{
    let next = s.tick(random)->Ok_0;
    assert(next.keypad =~= s.keypad);
    assert(next =~= s);
}

/// Once a key has been released, a tick at a wait-for-key instruction puts
/// the number of the first released key into the register, moves on to the
/// next instruction and empties the release queue.
pub proof fn lemma_wait_for_key_proceeds(s: MachineState, x: u8, random: u8)
    requires
        s.wf(),
        s.can_fetch(),
        s.next_instruction() == (Instruction::LdVxKey { x }),
        s.keypad.released.len() > 0,
    ensures
        s.tick(random) matches Ok(next) && next.pc == s.pc + 2 && next.reg(x)
            == s.keypad.released[0].spec_code() && next.keypad.released.len() == 0,
{
    crate::instruction::lemma_decode_in_range(s.current_word());
}

/// The timers never count below zero, and the tone stops at the tick of the
/// timers that takes the sound timer from one to zero.
pub proof fn lemma_timers_stop_at_zero(s: MachineState)
    ensures
        s.delay_timer == 0 ==> s.tick_timers().delay_timer == 0,
        s.sound_timer == 0 ==> s.tick_timers().sound_timer == 0,
        s.delay_timer > 0 ==> s.tick_timers().delay_timer == s.delay_timer - 1,
        s.sound_timer > 0 ==> s.tick_timers().sound_timer == s.sound_timer - 1,
        s.sounding() && !s.tick_timers().sounding() <==> s.sound_timer == 1,
{
}

/// A program fits exactly when loading it keeps everything outside the
/// program area as it was and puts the program's bytes, in order, at the
/// start of that area.
pub proof fn lemma_with_rom_places_program(s: MachineState, rom: Seq<u8>, a: int)
    requires
        s.wf(),
        rom.len() <= MAX_ROM_SIZE,
        0 <= a < 4096,
    ensures
        s.with_rom(rom).wf(),
        0x200 <= a < 0x200 + rom.len() ==> s.with_rom(rom).memory[a] == rom[a - 0x200],
        !(0x200 <= a < 0x200 + rom.len()) ==> s.with_rom(rom).memory[a] == s.memory[a],
{
}

} // verus!

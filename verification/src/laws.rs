//! Laws of the machine, proved of the model that the executable machine
//! follows.

use vstd::prelude::*;
use crate::decode::{spec_decode, Instruction};
use crate::display::{blit, collides, sprite_covers_index};
use crate::error::ExecutionError;
use crate::semantics::{
    any_pressed, bcd_digits, is_lowest_pressed, lemma_lowest_pressed, next_pc,
};
use crate::state::{State, MAX_PROGRAM_SIZE, SCREEN_PIXELS};

verus! {

/// Every operation keeps a well-formed state well formed: loading a program,
/// a timer tick, and a cycle whatever its outcome.
pub proof fn lemma_wf_preserved(s: State, rom: Seq<u8>, random: u8)
    requires
        s.wf(),
    ensures
        s.with_program(rom).wf(),
        s.tick().wf(),
        s.cycle(random).0.wf(),
{
}

/// Executing any word keeps a well-formed state well formed.
pub proof fn lemma_execute_wf(s: State, opcode: u16, random: u8)
    requires
        s.wf(),
    ensures
        s.execute(opcode, random).0.wf(),
{
}

/// Add with carry. VF ends as 1 if the sum of the two registers exceeds 255
/// and as 0 if it does not, whichever registers are named. Vx ends as the
/// sum modulo 256, except where x names VF, which holds the carry. No other
/// register changes.
pub proof fn lemma_add_reg(s: State, x: int, y: int)
    requires
        s.wf(),
        0 <= x < 16,
        0 <= y < 16,
    ensures
        s.v[x] + s.v[y] > 255 ==> s.add_reg(x, y).v[15] == 1,
        s.v[x] + s.v[y] <= 255 ==> s.add_reg(x, y).v[15] == 0,
        x != 15 ==> s.add_reg(x, y).v[x] == (s.v[x] + s.v[y]) % 256,
        forall|r: int| 0 <= r < 15 && r != x ==> s.add_reg(x, y).v[r] == s.v[r],
{
}

/// Subtract with borrow. VF ends as 1 if Vx >= Vy and as 0 if not, whichever
/// registers are named. Vx ends as the difference modulo 256, except where x
/// names VF. No other register changes.
pub proof fn lemma_sub_reg(s: State, x: int, y: int)
    requires
        s.wf(),
        0 <= x < 16,
        0 <= y < 16,
    ensures
        s.v[x] >= s.v[y] ==> s.sub_reg(x, y).v[15] == 1,
        s.v[x] < s.v[y] ==> s.sub_reg(x, y).v[15] == 0,
        x != 15 ==> s.sub_reg(x, y).v[x] == (s.v[x] - s.v[y]) % 256,
        forall|r: int| 0 <= r < 15 && r != x ==> s.sub_reg(x, y).v[r] == s.v[r],
{
}

/// Reverse subtract: as subtract, with the operands exchanged.
pub proof fn lemma_subn_reg(s: State, x: int, y: int)
    requires
        s.wf(),
        0 <= x < 16,
        0 <= y < 16,
    ensures
        s.v[y] >= s.v[x] ==> s.subn_reg(x, y).v[15] == 1,
        s.v[y] < s.v[x] ==> s.subn_reg(x, y).v[15] == 0,
        x != 15 ==> s.subn_reg(x, y).v[x] == (s.v[y] - s.v[x]) % 256,
        forall|r: int| 0 <= r < 15 && r != x ==> s.subn_reg(x, y).v[r] == s.v[r],
{
}

/// Shifts. VF ends as the bit that the shift pushes out of Vx, also where x
/// names VF itself. Where x names another register, that register ends as
/// its old value halved or doubled in eight bits.
pub proof fn lemma_shift(s: State, x: int)
    requires
        s.wf(),
        0 <= x < 16,
    ensures
        s.shift_right(x).v[15] == s.v[x] % 2,
        s.shift_left(x).v[15] == s.v[x] / 128,
        x != 15 ==> s.shift_right(x).v[x] == s.v[x] / 2,
        x != 15 ==> s.shift_left(x).v[x] == (s.v[x] * 2) % 256,
        forall|r: int| 0 <= r < 15 && r != x ==> s.shift_right(x).v[r] == s.v[r],
        forall|r: int| 0 <= r < 15 && r != x ==> s.shift_left(x).v[r] == s.v[r],
{
}

/// Drawing is its own inverse. A sprite drawn twice at one place leaves the
/// screen as it was, and the second drawing collides exactly if the sprite
/// has a set bit over a pixel that was dark before the first, which the
/// first therefore lit.
pub proof fn lemma_blit_twice(screen: Seq<bool>, sprite: Seq<u8>, left: int, top: int)
    requires
        screen.len() == SCREEN_PIXELS,
    ensures
        blit(blit(screen, sprite, left, top), sprite, left, top) == screen,
        collides(blit(screen, sprite, left, top), sprite, left, top) <==> exists|index: int|
            0 <= index < SCREEN_PIXELS && !#[trigger] screen[index] && sprite_covers_index(
                sprite,
                left,
                top,
                index,
            ),
{
    let once = blit(screen, sprite, left, top);
    assert(blit(once, sprite, left, top) =~= screen);
    if collides(once, sprite, left, top) {
        let index = choose|index: int|
            0 <= index < SCREEN_PIXELS && #[trigger] once[index] && sprite_covers_index(
                sprite,
                left,
                top,
                index,
            );
        assert(!screen[index]);
    }
    if exists|index: int|
        0 <= index < SCREEN_PIXELS && !#[trigger] screen[index] && sprite_covers_index(
            sprite,
            left,
            top,
            index,
        ) {
        let index = choose|index: int|
            0 <= index < SCREEN_PIXELS && !#[trigger] screen[index] && sprite_covers_index(
                sprite,
                left,
                top,
                index,
            );
        assert(once[index]);
    }
}

/// The draw instruction run twice in a row, at one place, restores the
/// screen, and VF then tells whether the first run lit a pixel. The place is
/// the same when the first run leaves Vx and Vy as they were, which it does
/// unless one of them is VF and the flag it receives differs from the
/// coordinate it held.
pub proof fn lemma_draw_twice(s: State, x: int, y: int, n: int)
    requires
        s.wf(),
        0 <= x < 16,
        0 <= y < 16,
        0 <= n < 16,
        s.draw(x, y, n).v[x] == s.v[x],
        s.draw(x, y, n).v[y] == s.v[y],
    ensures
        s.draw(x, y, n).draw(x, y, n).screen == s.screen,
        s.draw(x, y, n).draw(x, y, n).v[15] == 1 <==> exists|index: int|
            0 <= index < SCREEN_PIXELS && !#[trigger] s.screen[index] && sprite_covers_index(
                s.sprite(n),
                s.v[x] as int,
                s.v[y] as int,
                index,
            ),
        s.draw(x, y, n).draw(x, y, n).v[15] == 0 || s.draw(x, y, n).draw(x, y, n).v[15] == 1,
{
    lemma_blit_twice(s.screen, s.sprite(n), s.v[x] as int, s.v[y] as int);
}

/// Registers stored are registers loaded. After V0 to Vx have been stored
/// at I, loading V0 to Vx from the same I, with memory as the store left it,
/// gives each of them the value it had when stored, whatever the registers
/// hold by then. Loading right after storing therefore changes nothing.
pub proof fn lemma_store_load_round_trip(s: State, later: State, x: int)
    requires
        s.wf(),
        later.wf(),
        0 <= x < 16,
        s.index_in_bounds(x + 1),
        later.memory == s.store_registers(x).memory,
        later.i == s.i,
    ensures
        s.fault(Instruction::StoreRegisters { x: x as u8 }) is None,
        later.fault(Instruction::LoadRegisters { x: x as u8 }) is None,
        forall|r: int| 0 <= r <= x ==> later.load_registers(x).v[r] == s.v[r],
        forall|r: int| x < r < 16 ==> later.load_registers(x).v[r] == later.v[r],
        s.store_registers(x).load_registers(x) == s.store_registers(x),
        s.store_registers(x).v == s.v,
{
}

/// The three digits stored for a byte are its decimal digits.
pub proof fn lemma_bcd_digits(value: u8)
    ensures
        bcd_digits(value).len() == 3,
        bcd_digits(value)[0] < 10,
        bcd_digits(value)[1] < 10,
        bcd_digits(value)[2] < 10,
        bcd_digits(value)[0] * 100 + bcd_digits(value)[1] * 10 + bcd_digits(value)[2] == value,
{
}

/// Waiting for a key with no key down: the cycle succeeds and leaves the
/// whole state as it was, program counter included, so the next cycle runs
/// the same instruction again.
pub proof fn lemma_wait_key_blocks(s: State, random: u8)
    requires
        s.wf(),
        s.next_instruction() matches Some(Instruction::WaitKey { .. }),
        !any_pressed(s.keypad),
    ensures
        s.cycle(random) == (s, Ok::<(), ExecutionError>(())),
{
}

/// The state after one cycle for each byte of `randoms`, in order, whatever
/// the outcome of each cycle.
pub open spec fn after_cycles(s: State, randoms: Seq<u8>) -> State
    decreases randoms.len(),
{
    if randoms.len() == 0 {
        s
    } else {
        after_cycles(s.cycle(randoms[0]).0, randoms.drop_first())
    }
}

/// Waiting for a key with no key down, for any number of cycles: the state
/// stays as it was.
pub proof fn lemma_wait_key_blocks_repeatedly(s: State, randoms: Seq<u8>)
    requires
        s.wf(),
        s.next_instruction() matches Some(Instruction::WaitKey { .. }),
        !any_pressed(s.keypad),
    ensures
        after_cycles(s, randoms) == s,
    decreases randoms.len(),
{
    if randoms.len() > 0 {
        lemma_wait_key_blocks(s, randoms[0]);
        lemma_wait_key_blocks_repeatedly(s, randoms.drop_first());
    }
}

/// Waiting for a key with a key down: the cycle succeeds, Vx receives the
/// lowest number of a pressed key, the program counter moves on by two and
/// nothing else changes.
pub proof fn lemma_wait_key_takes_lowest(s: State, x: u8, key: int, random: u8)
    requires
        s.wf(),
        s.next_instruction() == Some(Instruction::WaitKey { x }),
        is_lowest_pressed(s.keypad, key),
    ensures
        s.cycle(random) == (
            State { v: s.v.update(x as int, key as u8), pc: (s.pc + 2) as u16, ..s },
            Ok::<(), ExecutionError>(()),
        ),
{
    lemma_lowest_pressed(s.keypad, key);
}

/// A timer tick lowers each timer by exactly one unless it is zero, in which
/// case it stays zero, and changes nothing else.
pub proof fn lemma_tick(s: State)
    ensures
        s.delay_timer > 0 ==> s.tick().delay_timer == s.delay_timer - 1,
        s.delay_timer == 0 ==> s.tick().delay_timer == 0,
        s.sound_timer > 0 ==> s.tick().sound_timer == s.sound_timer - 1,
        s.sound_timer == 0 ==> s.tick().sound_timer == 0,
        s.tick() == (State {
            delay_timer: s.tick().delay_timer,
            sound_timer: s.tick().sound_timer,
            ..s
        }),
{
}

/// Cycles do not make the timers decay: a cycle leaves both timers as they
/// are, unless it runs the instruction that sets one of them, and then the
/// timer holds Vx.
pub proof fn lemma_cycle_keeps_timers(s: State, random: u8)
    requires
        s.wf(),
    ensures
        s.cycle(random).0.delay_timer == s.delay_timer || (s.next_instruction() matches Some(
            Instruction::SetDelay { x },
        ) && s.cycle(random).0.delay_timer == s.v[x as int]),
        s.cycle(random).0.sound_timer == s.sound_timer || (s.next_instruction() matches Some(
            Instruction::SetSound { x },
        ) && s.cycle(random).0.sound_timer == s.v[x as int]),
{
}

/// Whether `instruction` is one of the conditional skips.
pub open spec fn is_skip(instruction: Instruction) -> bool {
    ||| instruction is SkipEqImm
    ||| instruction is SkipNeImm
    ||| instruction is SkipEqReg
    ||| instruction is SkipNeReg
    ||| instruction is SkipKeyPressed
    ||| instruction is SkipKeyNotPressed
}

/// Whether `instruction` may set the program counter to something other
/// than the address of one of the next two instructions.
pub open spec fn transfers_control(instruction: Instruction) -> bool {
    ||| instruction is Jump
    ||| instruction is JumpOffset
    ||| instruction is Call
    ||| instruction is Return
    ||| instruction is WaitKey
}

/// How a cycle moves the program counter. Whatever word was fetched, known
/// or not, and whether or not the instruction then fails, the counter ends
/// two bytes on; a skip that is taken ends four bytes on. Only jumps, calls,
/// returns and the wait for a key do otherwise.
pub proof fn lemma_cycle_moves_pc(s: State, random: u8)
    requires
        s.wf(),
        s.fetch() is Ok,
        !(s.next_instruction() matches Some(instruction) && transfers_control(instruction)),
    ensures
        s.cycle(random).0.pc == s.pc + 2 || s.cycle(random).0.pc == s.pc + 4,
        s.cycle(random).0.pc == s.pc + 4 ==> s.cycle(random).1 is Ok,
        s.cycle(random).0.pc == s.pc + 4 ==> (s.next_instruction() matches Some(instruction)
            && is_skip(instruction)),
{
}

/// What a cycle can touch. It never changes the keypad latch or the beeper.
/// It changes the screen only by drawing or clearing, memory only by storing
/// digits or registers, and the stack only by a call or a return.
pub proof fn lemma_cycle_frame(s: State, random: u8)
    requires
        s.wf(),
    ensures
        s.cycle(random).0.keypad == s.keypad,
        s.cycle(random).0.beeping == s.beeping,
        s.cycle(random).0.screen == s.screen || (s.next_instruction() matches Some(instruction)
            && (instruction is Draw || instruction is ClearScreen)),
        s.cycle(random).0.memory == s.memory || (s.next_instruction() matches Some(instruction)
            && (instruction is StoreBcd || instruction is StoreRegisters)),
        s.cycle(random).0.stack == s.stack || (s.next_instruction() matches Some(instruction)
            && (instruction is Call || instruction is Return)),
{
}

/// The random byte matters to the random instruction alone.
pub proof fn lemma_random_matters_only_when_wanted(s: State, first: u8, second: u8)
    requires
        !s.wants_random(),
    ensures
        s.cycle(first) == s.cycle(second),
{
}

/// A word that decodes to nothing moves the program counter past itself and
/// changes nothing else.
pub proof fn lemma_unknown_opcode(s: State, opcode: u16, random: u8)
    requires
        spec_decode(opcode) is None,
    ensures
        s.execute(opcode, random) == (
            State { pc: next_pc(s.pc), ..s },
            Err::<(), ExecutionError>(ExecutionError::UnknownOpcode { opcode }),
        ),
{
}

/// A return undoes a call: after calling `addr` and returning, the program
/// counter and the stack are as they were just before the call.
pub proof fn lemma_call_then_return(s: State, addr: u16)
    requires
        s.wf(),
        s.stack.len() < 16,
    ensures
        s.fault(Instruction::Call { addr }) is None,
        s.call(addr).fault(Instruction::Return) is None,
        s.call(addr).ret() == s,
{
}

/// A program that fits lies in memory from `0x200` on, byte for byte, and
/// the rest of memory, the glyphs among it, is as it was.
pub proof fn lemma_with_program(s: State, rom: Seq<u8>)
    requires
        s.wf(),
        rom.len() <= MAX_PROGRAM_SIZE,
    ensures
        forall|k: int| 0 <= k < rom.len() ==> s.with_program(rom).memory[0x200 + k] == rom[k],
        forall|a: int| 0 <= a < 0x200 ==> s.with_program(rom).memory[a] == s.memory[a],
        forall|a: int|
            0x200 + rom.len() <= a < 4096 ==> s.with_program(rom).memory[a] == s.memory[a],
{
}

} // verus!

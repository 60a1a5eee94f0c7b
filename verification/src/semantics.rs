//! What each instruction does to a machine state, and what one cycle does.
//!
//! Everything here is a function on [`State`]; the executable machine is
//! proved to follow it.

use vstd::prelude::*;
use crate::decode::{spec_decode, Instruction};
use crate::display::{blank_screen, blit, collides, sprite_in};
use crate::error::ExecutionError;
use crate::state::{State, FLAG_REGISTER, GLYPH_SIZE, KEY_COUNT, MEMORY_SIZE, STACK_DEPTH};

verus! {

/// The address two bytes after `pc`, in sixteen bits.
pub open spec fn next_pc(pc: u16) -> u16 {
    ((pc + 2) % 0x1_0000) as u16
}

/// The address two bytes before `pc`, in sixteen bits.
pub open spec fn previous_pc(pc: u16) -> u16 {
    ((pc - 2) % 0x1_0000) as u16
}

/// `key` is pressed and no key with a lower number is.
pub open spec fn is_lowest_pressed(keypad: Seq<bool>, key: int) -> bool {
    &&& 0 <= key < keypad.len()
    &&& keypad[key]
    &&& forall|lower: int| 0 <= lower < key ==> !keypad[lower]
}

/// Some key is pressed.
pub open spec fn any_pressed(keypad: Seq<bool>) -> bool {
    exists|key: int| 0 <= key < keypad.len() && keypad[key]
}

/// The lowest-numbered pressed key, where one is pressed.
pub open spec fn lowest_pressed(keypad: Seq<bool>) -> int {
    choose|key: int| is_lowest_pressed(keypad, key)
}

/// The lowest pressed key is the one key that is pressed with none below it.
pub proof fn lemma_lowest_pressed(keypad: Seq<bool>, key: int)
    requires
        is_lowest_pressed(keypad, key),
    ensures
        any_pressed(keypad),
        lowest_pressed(keypad) == key,
{
    let chosen = lowest_pressed(keypad);
    assert(is_lowest_pressed(keypad, chosen));
    if chosen < key {
        assert(!keypad[chosen]);
    }
    if key < chosen {
        assert(!keypad[key]);
    }
}

/// The hundreds, tens and units digit of a byte.
pub open spec fn bcd_digits(value: u8) -> Seq<u8> {
    seq![value / 100, (value / 10) % 10, value % 10]
}

impl State {
    /// The state with register `x` set to `value`.
    pub open spec fn with_register(self, x: int, value: u8) -> State {
        State { v: self.v.update(x, value), ..self }
    }

    /// The state with VF set to `value`.
    pub open spec fn with_flag(self, value: u8) -> State {
        self.with_register(FLAG_REGISTER as int, value)
    }

    /// The state with the program counter set to `pc`.
    pub open spec fn with_pc(self, pc: u16) -> State {
        State { pc, ..self }
    }

    /// The program counter moved past one instruction.
    pub open spec fn advance(self) -> State {
        self.with_pc(next_pc(self.pc))
    }

    /// The program counter moved past one more instruction if `condition` holds.
    pub open spec fn skip_if(self, condition: bool) -> State {
        if condition {
            self.advance()
        } else {
            self
        }
    }

    /// Every pixel off.
    pub open spec fn clear_screen(self) -> State {
        State { screen: blank_screen(), ..self }
    }

    /// Return: continue at the most recent return address and drop it.
    pub open spec fn ret(self) -> State {
        State { pc: self.stack.last(), stack: self.stack.drop_last(), ..self }
    }

    /// Call: remember the program counter and continue at `addr`.
    pub open spec fn call(self, addr: u16) -> State {
        State { pc: addr, stack: self.stack.push(self.pc), ..self }
    }

    /// Vx = Vx + `kk` in eight bits, VF untouched.
    pub open spec fn add_imm(self, x: int, kk: u8) -> State {
        self.with_register(x, ((self.v[x] + kk) % 256) as u8)
    }

    /// Vx = Vx + Vy in eight bits, then VF = 1 if the sum exceeds 255, else 0.
    pub open spec fn add_reg(self, x: int, y: int) -> State {
        let sum = self.v[x] + self.v[y];
        self.with_register(x, (sum % 256) as u8).with_flag(if sum > 255 { 1 } else { 0 })
    }

    /// Vx = Vx - Vy in eight bits, then VF = 1 if Vx >= Vy, else 0.
    pub open spec fn sub_reg(self, x: int, y: int) -> State {
        let difference = self.v[x] - self.v[y];
        self.with_register(x, (difference % 256) as u8).with_flag(
            if self.v[x] >= self.v[y] { 1 } else { 0 },
        )
    }

    /// Vx = Vy - Vx in eight bits, then VF = 1 if Vy >= Vx, else 0.
    pub open spec fn subn_reg(self, x: int, y: int) -> State {
        let difference = self.v[y] - self.v[x];
        self.with_register(x, (difference % 256) as u8).with_flag(
            if self.v[y] >= self.v[x] { 1 } else { 0 },
        )
    }

    /// Vx = Vx / 2, then VF = the bit shifted out at the bottom.
    pub open spec fn shift_right(self, x: int) -> State {
        self.with_register(x, self.v[x] / 2).with_flag(self.v[x] % 2)
    }

    /// Vx = Vx * 2 in eight bits, then VF = the bit shifted out at the top.
    pub open spec fn shift_left(self, x: int) -> State {
        self.with_register(x, ((self.v[x] * 2) % 256) as u8).with_flag(self.v[x] / 128)
    }

    /// The program counter set to `addr` + V0.
    pub open spec fn jump_offset(self, addr: u16) -> State {
        self.with_pc(((addr + self.v[0]) % 0x1_0000) as u16)
    }

    /// The `n` bytes of memory from I on.
    pub open spec fn sprite(self, n: int) -> Seq<u8> {
        sprite_in(self.memory, self.i as int, n)
    }

    /// Every byte from I up to, but not including, I + `count` is in memory.
    pub open spec fn index_in_bounds(self, count: int) -> bool {
        count == 0 || self.i + count <= MEMORY_SIZE
    }

    /// Draw the `n`-row sprite at I with its corner at column Vx and row Vy:
    /// the pixels under its set bits are flipped, and VF = 1 if one of them
    /// was lit, else 0.
    pub open spec fn draw(self, x: int, y: int, n: int) -> State {
        let sprite = self.sprite(n);
        let left = self.v[x] as int;
        let top = self.v[y] as int;
        State {
            screen: blit(self.screen, sprite, left, top),
            v: self.v.update(
                FLAG_REGISTER as int,
                if collides(self.screen, sprite, left, top) { 1u8 } else { 0u8 },
            ),
            ..self
        }
    }

    /// Wait for a key. With a key down, Vx = the lowest number of a pressed
    /// key. With none down, the program counter goes back to this instruction.
    pub open spec fn wait_key(self, x: int) -> State {
        if any_pressed(self.keypad) {
            self.with_register(x, lowest_pressed(self.keypad) as u8)
        } else {
            self.with_pc(previous_pc(self.pc))
        }
    }

    /// I = I + Vx in sixteen bits.
    pub open spec fn add_index(self, x: int) -> State {
        State { i: ((self.i + self.v[x]) % 0x1_0000) as u16, ..self }
    }

    /// I = the address of the glyph for the digit in Vx.
    pub open spec fn load_font(self, x: int) -> State {
        State { i: (self.v[x] * GLYPH_SIZE) as u16, ..self }
    }

    /// The decimal digits of Vx written at I, I+1 and I+2.
    pub open spec fn store_bcd(self, x: int) -> State {
        let digits = bcd_digits(self.v[x]);
        State {
            memory: self.memory.update(self.i as int, digits[0]).update(
                self.i + 1,
                digits[1],
            ).update(self.i + 2, digits[2]),
            ..self
        }
    }

    /// V0 to Vx written to memory at I to I + x.
    pub open spec fn store_registers(self, x: int) -> State {
        State {
            memory: Seq::new(
                self.memory.len(),
                |a: int| if self.i <= a <= self.i + x { self.v[a - self.i] } else { self.memory[a] },
            ),
            ..self
        }
    }

    /// V0 to Vx read from memory at I to I + x.
    pub open spec fn load_registers(self, x: int) -> State {
        State {
            v: Seq::new(
                self.v.len(),
                |r: int| if r <= x { self.memory[self.i + r] } else { self.v[r] },
            ),
            ..self
        }
    }

    /// Whether `instruction` would read or write a byte outside memory, or
    /// look at a key that the keypad does not have.
    pub open spec fn reaches_outside(self, instruction: Instruction) -> bool {
        match instruction {
            Instruction::Draw { n, .. } => !self.index_in_bounds(n as int),
            Instruction::StoreBcd { .. } => !self.index_in_bounds(3),
            Instruction::StoreRegisters { x } | Instruction::LoadRegisters { x } => {
                !self.index_in_bounds(x + 1)
            },
            Instruction::SkipKeyPressed { x } | Instruction::SkipKeyNotPressed { x } => {
                self.v[x as int] >= KEY_COUNT
            },
            _ => false,
        }
    }

    /// The error with which `instruction` stops before changing anything,
    /// if there is one: a return with nothing to return to, a call with all
    /// sixteen levels in use, or an access that reaches outside.
    pub open spec fn fault(self, instruction: Instruction) -> Option<ExecutionError> {
        if instruction is Return && self.stack.len() == 0 {
            Some(ExecutionError::StackUnderflow)
        } else if instruction is Call && self.stack.len() >= STACK_DEPTH {
            Some(ExecutionError::StackOverflow)
        } else if self.reaches_outside(instruction) {
            Some(ExecutionError::OutOfBoundsAccess)
        } else {
            None
        }
    }

    /// The state after `instruction` has run to its end. `random` is the byte
    /// drawn for it; only `Random` looks at it.
    pub open spec fn effect(self, instruction: Instruction, random: u8) -> State {
        match instruction {
            Instruction::ClearScreen => self.clear_screen(),
            Instruction::Return => self.ret(),
            Instruction::Jump { addr } => self.with_pc(addr),
            Instruction::Call { addr } => self.call(addr),
            Instruction::SkipEqImm { x, kk } => self.skip_if(self.v[x as int] == kk),
            Instruction::SkipNeImm { x, kk } => self.skip_if(self.v[x as int] != kk),
            Instruction::SkipEqReg { x, y } => self.skip_if(self.v[x as int] == self.v[y as int]),
            Instruction::LoadImm { x, kk } => self.with_register(x as int, kk),
            Instruction::AddImm { x, kk } => self.add_imm(x as int, kk),
            Instruction::LoadReg { x, y } => self.with_register(x as int, self.v[y as int]),
            Instruction::Or { x, y } => self.with_register(
                x as int,
                self.v[x as int] | self.v[y as int],
            ),
            Instruction::And { x, y } => self.with_register(
                x as int,
                self.v[x as int] & self.v[y as int],
            ),
            Instruction::Xor { x, y } => self.with_register(
                x as int,
                self.v[x as int] ^ self.v[y as int],
            ),
            Instruction::AddReg { x, y } => self.add_reg(x as int, y as int),
            Instruction::SubReg { x, y } => self.sub_reg(x as int, y as int),
            Instruction::ShiftRight { x } => self.shift_right(x as int),
            Instruction::SubnReg { x, y } => self.subn_reg(x as int, y as int),
            Instruction::ShiftLeft { x } => self.shift_left(x as int),
            Instruction::SkipNeReg { x, y } => self.skip_if(self.v[x as int] != self.v[y as int]),
            Instruction::LoadIndex { addr } => State { i: addr, ..self },
            Instruction::JumpOffset { addr } => self.jump_offset(addr),
            Instruction::Random { x, kk } => self.with_register(x as int, random & kk),
            Instruction::Draw { x, y, n } => self.draw(x as int, y as int, n as int),
            Instruction::SkipKeyPressed { x } => self.skip_if(self.keypad[self.v[x as int] as int]),
            Instruction::SkipKeyNotPressed { x } => self.skip_if(
                !self.keypad[self.v[x as int] as int],
            ),
            Instruction::LoadDelay { x } => self.with_register(x as int, self.delay_timer),
            Instruction::WaitKey { x } => self.wait_key(x as int),
            Instruction::SetDelay { x } => State { delay_timer: self.v[x as int], ..self },
            Instruction::SetSound { x } => State { sound_timer: self.v[x as int], ..self },
            Instruction::AddIndex { x } => self.add_index(x as int),
            Instruction::LoadFont { x } => self.load_font(x as int),
            Instruction::StoreBcd { x } => self.store_bcd(x as int),
            Instruction::StoreRegisters { x } => self.store_registers(x as int),
            Instruction::LoadRegisters { x } => self.load_registers(x as int),
        }
    }

    /// Running `instruction` in this state, in which the program counter
    /// already points past it: either it stops with an error and changes
    /// nothing, or it runs to its end.
    pub open spec fn apply(self, instruction: Instruction, random: u8) -> (
        State,
        Result<(), ExecutionError>,
    ) {
        match self.fault(instruction) {
            Some(error) => (self, Err(error)),
            None => (self.effect(instruction, random), Ok(())),
        }
    }

    /// Executing the word `opcode`: the program counter moves past it, then
    /// the instruction it decodes to is run. A word that decodes to nothing
    /// is reported, with the program counter past it and nothing else changed.
    pub open spec fn execute(self, opcode: u16, random: u8) -> (State, Result<(), ExecutionError>) {
        let advanced = self.advance();
        match spec_decode(opcode) {
            Some(instruction) => advanced.apply(instruction, random),
            None => (advanced, Err(ExecutionError::UnknownOpcode { opcode })),
        }
    }

    /// The word at the program counter, high byte first, or the error if one
    /// of its two bytes lies outside memory.
    pub open spec fn fetch(self) -> Result<u16, ExecutionError> {
        if self.pc + 1 < MEMORY_SIZE {
            Ok((self.memory[self.pc as int] * 256 + self.memory[self.pc + 1]) as u16)
        } else {
            Err(ExecutionError::OutOfBoundsAccess)
        }
    }

    /// The instruction that the next cycle runs: the one that the word at the
    /// program counter decodes to, if that word can be fetched and decoded.
    pub open spec fn next_instruction(self) -> Option<Instruction> {
        match self.fetch() {
            Ok(opcode) => spec_decode(opcode),
            Err(_) => None,
        }
    }

    /// Whether the next cycle draws a random byte.
    pub open spec fn wants_random(self) -> bool {
        self.next_instruction() matches Some(Instruction::Random { .. })
    }

    /// One cycle: fetch the word at the program counter and execute it. When
    /// the fetch fails nothing changes.
    pub open spec fn cycle(self, random: u8) -> (State, Result<(), ExecutionError>) {
        match self.fetch() {
            Ok(opcode) => self.execute(opcode, random),
            Err(error) => (self, Err(error)),
        }
    }
}

} // verus!

//! The machine: its state, program loading, the instruction cycle and the
//! timers.

use vstd::prelude::*;
use crate::decode::{decode, Instruction};
use crate::display::draw_sprite;
use crate::error::{ExecutionError, LoadError, SoundState};
use crate::interface::Interface;
use crate::semantics::lemma_lowest_pressed;
use crate::stack::CallStack;
use crate::state::{
    State, FONTSET, FONT_SIZE, GLYPH_SIZE, KEY_COUNT, MAX_PROGRAM_SIZE, MEMORY_SIZE, PROGRAM_START,
};

verus! {

/// A CHIP-8 machine together with the devices it is wired to.
pub struct Chip8 {
    memory: [u8; 4096],
    v: [u8; 16],
    i: u16,
    pc: u16,
    stack: CallStack,
    delay_timer: u8,
    sound_timer: u8,
    interface: Interface,
}

impl View for Chip8 {
    type V = State;

    closed spec fn view(&self) -> State {
        State {
            memory: self.memory@,
            v: self.v@,
            i: self.i,
            pc: self.pc,
            stack: self.stack@,
            delay_timer: self.delay_timer,
            sound_timer: self.sound_timer,
            screen: self.interface.screen@,
            keypad: self.interface.keypad@,
            beeping: self.interface.is_beeping,
        }
    }
}

/// Draws one byte by calling `rand::random::<u8>()`, which asks the
/// thread-local generator of the `rand` crate. Nothing is claimed of the
/// byte: it may be any value, and two calls may differ.
#[verifier::external_body]
fn random_byte() -> (byte: u8) {
    rand::random::<u8>()
}

impl Chip8 {
    /// The model of a machine whose call stack is within its bounds is well
    /// formed.
    proof fn lemma_wf(self)
        requires
            self.stack.in_bounds(),
        ensures
            self@.wf(),
    {
        self.stack.lemma_bounded();
    }

    /// Builds a machine around `interface`: the glyphs at the bottom of
    /// memory, everything else zero, the program counter at `0x200`.
    pub fn new(interface: Interface) -> (machine: Chip8)
        ensures
            machine@ == State::power_on(
                interface.screen@,
                interface.keypad@,
                interface.is_beeping,
            ),
            machine@.wf(),
    {
        let mut memory = [0u8; 4096];
        let mut address: usize = 0;
        while address < FONT_SIZE
            invariant
                address <= FONT_SIZE,
                forall|a: int| 0 <= a < address ==> memory@[a] == FONTSET@[a],
                forall|a: int| address <= a < MEMORY_SIZE ==> memory@[a] == 0u8,
            decreases FONT_SIZE - address,
        {
            memory[address] = FONTSET[address];
            address = address + 1;
        }
        Chip8 {
            memory,
            v: [0u8; 16],
            i: 0,
            pc: PROGRAM_START,
            stack: CallStack::new(),
            delay_timer: 0,
            sound_timer: 0,
            interface,
        }
    }

    /// Copies `program` into memory from `0x200` on. An image of more than
    /// 3584 bytes does not fit: it is refused and nothing changes.
    pub fn load_program(&mut self, program: &[u8]) -> (res: Result<(), LoadError>)
        ensures
            match res {
                Ok(()) => {
                    &&& program@.len() <= MAX_PROGRAM_SIZE
                    &&& final(self)@ == old(self)@.with_program(program@)
                },
                Err(error) => {
                    &&& program@.len() > MAX_PROGRAM_SIZE
                    &&& error == (LoadError::RomTooLarge { size: program@.len() as usize })
                    &&& final(self)@ == old(self)@
                },
            },
            old(self)@.wf(),
            final(self)@.wf(),
    {
        let size = program.len();
        proof {
            use_type_invariant(&self.stack);
            self.lemma_wf();
        }
        if size > MAX_PROGRAM_SIZE {
            return Err(LoadError::RomTooLarge { size });
        }
        let ghost before = self@;
        let mut offset: usize = 0;
        while offset < size
            invariant
                offset <= size,
                size == program@.len(),
                size <= MAX_PROGRAM_SIZE,
                self@ == (State {
                    memory: Seq::new(
                        MEMORY_SIZE as nat,
                        |a: int|
                            if PROGRAM_START <= a < PROGRAM_START + offset {
                                program@[a - PROGRAM_START]
                            } else {
                                before.memory[a]
                            },
                    ),
                    ..before
                }),
            decreases size - offset,
        {
            self.memory[PROGRAM_START as usize + offset] = program[offset];
            offset = offset + 1;
        }
        Ok(())
    }

    /// Runs one cycle: fetches the word at the program counter and executes
    /// it. A random byte is drawn only for the instruction that asks for one,
    /// and the outcome is then that of the cycle for some byte; for every
    /// other instruction the outcome is fixed by the state alone.
    pub fn emulate_cycle(&mut self) -> (res: Result<(), ExecutionError>)
        ensures
            exists|random: u8|
                {
                    &&& final(self)@ == (#[trigger] old(self)@.cycle(random)).0
                    &&& res == old(self)@.cycle(random).1
                },
            !old(self)@.wants_random() ==> {
                &&& final(self)@ == old(self)@.cycle(0).0
                &&& res == old(self)@.cycle(0).1
            },
            old(self)@.wf(),
            final(self)@.wf(),
    {
        proof {
            use_type_invariant(&self.stack);
            self.lemma_wf();
        }
        let opcode = match self.fetch_instruction() {
            Ok(opcode) => opcode,
            Err(error) => {
                return Err(error);
            },
        };
        assert(opcode & 0xF000 == 0xC000 <==> opcode / 0x1000 == 0xC) by (bit_vector);
        let random: u8 = if opcode & 0xF000 == 0xC000 {
            random_byte()
        } else {
            0
        };
        let res = self.execute_instruction(opcode, random);
        assert(self@ == old(self)@.cycle(random).0);
        res
    }

    /// Reads the word at the program counter, high byte first. Fails when
    /// one of its two bytes lies outside memory.
    pub fn fetch_instruction(&self) -> (res: Result<u16, ExecutionError>)
        ensures
            res == self@.fetch(),
    {
        let pc = self.pc as usize;
        if pc + 1 >= MEMORY_SIZE {
            return Err(ExecutionError::OutOfBoundsAccess);
        }
        let high_byte = self.memory[pc] as u16;
        let low_byte = self.memory[pc + 1] as u16;
        assert((high_byte << 8) | low_byte == high_byte * 256 + low_byte) by (bit_vector)
            requires
                high_byte < 256,
                low_byte < 256,
        ;
        Ok((high_byte << 8) | low_byte)
    }

    /// Executes the word `opcode`: moves the program counter past it,
    /// decodes it and runs the instruction. `random_byte` is the byte that
    /// the random instruction uses; no other instruction looks at it.
    pub fn execute_instruction(&mut self, opcode: u16, random_byte: u8) -> (res: Result<
        (),
        ExecutionError,
    >)
        ensures
            final(self)@ == old(self)@.execute(opcode, random_byte).0,
            res == old(self)@.execute(opcode, random_byte).1,
            old(self)@.wf(),
            final(self)@.wf(),
    {
        proof {
            use_type_invariant(&self.stack);
            self.lemma_wf();
        }
        self.pc = self.pc.wrapping_add(2);
        let instruction = match decode(opcode) {
            Some(instruction) => instruction,
            None => {
                return Err(ExecutionError::UnknownOpcode { opcode });
            },
        };
        let res = match instruction {
            Instruction::ClearScreen => {
                self.cls();
                Ok(())
            },
            Instruction::Return => self.ret(),
            Instruction::Jump { addr } => {
                self.jp(addr);
                Ok(())
            },
            Instruction::Call { addr } => self.call(addr),
            Instruction::SkipEqImm { x, kk } => {
                self.se_vx(x as usize, kk);
                Ok(())
            },
            Instruction::SkipNeImm { x, kk } => {
                self.sne_vx(x as usize, kk);
                Ok(())
            },
            Instruction::SkipEqReg { x, y } => {
                self.se_vx_vy(x as usize, y as usize);
                Ok(())
            },
            Instruction::LoadImm { x, kk } => {
                self.ld_vx(x as usize, kk);
                Ok(())
            },
            Instruction::AddImm { x, kk } => {
                self.add_vx(x as usize, kk);
                Ok(())
            },
            Instruction::LoadReg { x, y } => {
                self.ld_vx_vy(x as usize, y as usize);
                Ok(())
            },
            Instruction::Or { x, y } => {
                self.or_vx_vy(x as usize, y as usize);
                Ok(())
            },
            Instruction::And { x, y } => {
                self.and_vx_vy(x as usize, y as usize);
                Ok(())
            },
            Instruction::Xor { x, y } => {
                self.xor_vx_vy(x as usize, y as usize);
                Ok(())
            },
            Instruction::AddReg { x, y } => {
                self.add_vx_vy(x as usize, y as usize);
                Ok(())
            },
            Instruction::SubReg { x, y } => {
                self.sub_vx_vy(x as usize, y as usize);
                Ok(())
            },
            Instruction::ShiftRight { x } => {
                self.shr_vx(x as usize);
                Ok(())
            },
            Instruction::SubnReg { x, y } => {
                self.subn_vx_vy(x as usize, y as usize);
                Ok(())
            },
            Instruction::ShiftLeft { x } => {
                self.shl_vx(x as usize);
                Ok(())
            },
            Instruction::SkipNeReg { x, y } => {
                self.sne_vx_vy(x as usize, y as usize);
                Ok(())
            },
            Instruction::LoadIndex { addr } => {
                self.ld_i(addr);
                Ok(())
            },
            Instruction::JumpOffset { addr } => {
                self.jp_v0(addr);
                Ok(())
            },
            Instruction::Random { x, kk } => {
                self.rnd(x as usize, kk, random_byte);
                Ok(())
            },
            Instruction::Draw { x, y, n } => self.drw(x as usize, y as usize, n),
            Instruction::SkipKeyPressed { x } => self.skp(x as usize),
            Instruction::SkipKeyNotPressed { x } => self.sknp(x as usize),
            Instruction::LoadDelay { x } => {
                self.ld_vx_dt(x as usize);
                Ok(())
            },
            Instruction::WaitKey { x } => {
                self.ld_vx_k(x as usize);
                Ok(())
            },
            Instruction::SetDelay { x } => {
                self.ld_dt_vx(x as usize);
                Ok(())
            },
            Instruction::SetSound { x } => {
                self.ld_st_vx(x as usize);
                Ok(())
            },
            Instruction::AddIndex { x } => {
                self.add_i_vx(x as usize);
                Ok(())
            },
            Instruction::LoadFont { x } => {
                self.ld_f_vx(x as usize);
                Ok(())
            },
            Instruction::StoreBcd { x } => self.ld_b_vx(x as usize),
            Instruction::StoreRegisters { x } => self.ld_i_vx(x as usize),
            Instruction::LoadRegisters { x } => self.ld_vx_i(x as usize),
        };
        proof {
            use_type_invariant(&self.stack);
            self.lemma_wf();
        }
        res
    }

    /// One timer tick: each timer that is not zero goes down by one. Sound is
    /// audible exactly if the sound timer was above zero before the tick.
    pub fn tick_timers(&mut self) -> (sound: SoundState)
        ensures
            final(self)@ == old(self)@.tick(),
            sound == if old(self)@.sound_timer > 0 {
                SoundState::Audible
            } else {
                SoundState::Silent
            },
            old(self)@.wf(),
            final(self)@.wf(),
    {
        proof {
            use_type_invariant(&self.stack);
            self.lemma_wf();
        }
        if self.delay_timer > 0 {
            self.delay_timer = self.delay_timer - 1;
        }
        if self.sound_timer > 0 {
            self.sound_timer = self.sound_timer - 1;
            SoundState::Audible
        } else {
            SoundState::Silent
        }
    }

    /// Clear the display.
    fn cls(&mut self)
        ensures
            final(self)@ == old(self)@.clear_screen(),
    {
        self.interface.screen = [false; 2048];
    }

    /// Return from a subroutine.
    fn ret(&mut self) -> (res: Result<(), ExecutionError>)
        ensures
            final(self)@ == old(self)@.apply(Instruction::Return, 0).0,
            res == old(self)@.apply(Instruction::Return, 0).1,
    {
        match self.stack.pop() {
            Ok(address) => {
                self.pc = address;
                Ok(())
            },
            Err(error) => Err(error),
        }
    }

    /// Jump to `addr`.
    fn jp(&mut self, addr: u16)
        ensures
            final(self)@ == old(self)@.with_pc(addr),
    {
        self.pc = addr;
    }

    /// Call the subroutine at `addr`.
    fn call(&mut self, addr: u16) -> (res: Result<(), ExecutionError>)
        ensures
            final(self)@ == old(self)@.apply(Instruction::Call { addr }, 0).0,
            res == old(self)@.apply(Instruction::Call { addr }, 0).1,
    {
        match self.stack.push(self.pc) {
            Ok(()) => {
                self.pc = addr;
                Ok(())
            },
            Err(error) => Err(error),
        }
    }

    /// Skip the next instruction if Vx equals `kk`.
    fn se_vx(&mut self, x: usize, kk: u8)
        requires
            x < 16,
        ensures
            final(self)@ == old(self)@.skip_if(old(self)@.v[x as int] == kk),
    {
        if self.v[x] == kk {
            self.pc = self.pc.wrapping_add(2);
        }
    }

    /// Skip the next instruction if Vx differs from `kk`.
    fn sne_vx(&mut self, x: usize, kk: u8)
        requires
            x < 16,
        ensures
            final(self)@ == old(self)@.skip_if(old(self)@.v[x as int] != kk),
    {
        if self.v[x] != kk {
            self.pc = self.pc.wrapping_add(2);
        }
    }

    /// Skip the next instruction if Vx equals Vy.
    fn se_vx_vy(&mut self, x: usize, y: usize)
        requires
            x < 16,
            y < 16,
        ensures
            final(self)@ == old(self)@.skip_if(old(self)@.v[x as int] == old(self)@.v[y as int]),
    {
        if self.v[x] == self.v[y] {
            self.pc = self.pc.wrapping_add(2);
        }
    }

    /// Vx = `kk`.
    fn ld_vx(&mut self, x: usize, kk: u8)
        requires
            x < 16,
        ensures
            final(self)@ == old(self)@.with_register(x as int, kk),
    {
        self.v[x] = kk;
    }

    /// Vx = Vx + `kk`, wrapping.
    fn add_vx(&mut self, x: usize, kk: u8)
        requires
            x < 16,
        ensures
            final(self)@ == old(self)@.add_imm(x as int, kk),
    {
        self.v[x] = self.v[x].wrapping_add(kk);
    }

    /// Vx = Vy.
    fn ld_vx_vy(&mut self, x: usize, y: usize)
        requires
            x < 16,
            y < 16,
        ensures
            final(self)@ == old(self)@.with_register(x as int, old(self)@.v[y as int]),
    {
        self.v[x] = self.v[y];
    }

    /// Vx = Vx or Vy.
    fn or_vx_vy(&mut self, x: usize, y: usize)
        requires
            x < 16,
            y < 16,
        ensures
            final(self)@ == old(self)@.with_register(
                x as int,
                old(self)@.v[x as int] | old(self)@.v[y as int],
            ),
    {
        self.v[x] = self.v[x] | self.v[y];
    }

    /// Vx = Vx and Vy.
    fn and_vx_vy(&mut self, x: usize, y: usize)
        requires
            x < 16,
            y < 16,
        ensures
            final(self)@ == old(self)@.with_register(
                x as int,
                old(self)@.v[x as int] & old(self)@.v[y as int],
            ),
    {
        self.v[x] = self.v[x] & self.v[y];
    }

    /// Vx = Vx xor Vy.
    fn xor_vx_vy(&mut self, x: usize, y: usize)
        requires
            x < 16,
            y < 16,
        ensures
            final(self)@ == old(self)@.with_register(
                x as int,
                old(self)@.v[x as int] ^ old(self)@.v[y as int],
            ),
    {
        self.v[x] = self.v[x] ^ self.v[y];
    }

    /// Vx = Vx + Vy in eight bits; VF = 1 if the sum exceeds 255, else 0.
    /// VF is written last, so it holds the carry even where x is F.
    fn add_vx_vy(&mut self, x: usize, y: usize)
        requires
            x < 16,
            y < 16,
        ensures
            final(self)@ == old(self)@.add_reg(x as int, y as int),
            final(self)@.v[15] == 1 <==> old(self)@.v[x as int] + old(self)@.v[y as int] > 255,
            final(self)@.v[15] == 0 <==> old(self)@.v[x as int] + old(self)@.v[y as int] <= 255,
            x != 15 ==> final(self)@.v[x as int] == (old(self)@.v[x as int] + old(self)@.v[y as int])
                % 256,
    {
        let a = self.v[x];
        let b = self.v[y];
        let carry: u8 = if a as u16 + b as u16 > 255 { 1 } else { 0 };
        self.v[x] = a.wrapping_add(b);
        self.v[0xF] = carry;
    }

    /// Vx = Vx - Vy in eight bits; VF = 1 if Vx >= Vy, else 0, written last.
    fn sub_vx_vy(&mut self, x: usize, y: usize)
        requires
            x < 16,
            y < 16,
        ensures
            final(self)@ == old(self)@.sub_reg(x as int, y as int),
            final(self)@.v[15] == 1 <==> old(self)@.v[x as int] >= old(self)@.v[y as int],
            final(self)@.v[15] == 0 <==> old(self)@.v[x as int] < old(self)@.v[y as int],
            x != 15 ==> final(self)@.v[x as int] == (old(self)@.v[x as int] - old(self)@.v[y as int])
                % 256,
    {
        let a = self.v[x];
        let b = self.v[y];
        let no_borrow: u8 = if a >= b { 1 } else { 0 };
        self.v[x] = a.wrapping_sub(b);
        self.v[0xF] = no_borrow;
    }

    /// Vx = Vx >> 1; VF = the bit shifted out, written last.
    fn shr_vx(&mut self, x: usize)
        requires
            x < 16,
        ensures
            final(self)@ == old(self)@.shift_right(x as int),
            final(self)@.v[15] == old(self)@.v[x as int] % 2,
            x != 15 ==> final(self)@.v[x as int] == old(self)@.v[x as int] / 2,
    {
        let a = self.v[x];
        assert(a >> 1 == a / 2) by (bit_vector);
        assert(a & 1 == a % 2) by (bit_vector);
        self.v[x] = a >> 1;
        self.v[0xF] = a & 1;
    }

    /// Vx = Vy - Vx in eight bits; VF = 1 if Vy >= Vx, else 0, written last.
    fn subn_vx_vy(&mut self, x: usize, y: usize)
        requires
            x < 16,
            y < 16,
        ensures
            final(self)@ == old(self)@.subn_reg(x as int, y as int),
            final(self)@.v[15] == 1 <==> old(self)@.v[y as int] >= old(self)@.v[x as int],
            final(self)@.v[15] == 0 <==> old(self)@.v[y as int] < old(self)@.v[x as int],
            x != 15 ==> final(self)@.v[x as int] == (old(self)@.v[y as int] - old(self)@.v[x as int])
                % 256,
    {
        let a = self.v[x];
        let b = self.v[y];
        let no_borrow: u8 = if b >= a { 1 } else { 0 };
        self.v[x] = b.wrapping_sub(a);
        self.v[0xF] = no_borrow;
    }

    /// Vx = Vx << 1; VF = the bit shifted out, written last.
    fn shl_vx(&mut self, x: usize)
        requires
            x < 16,
        ensures
            final(self)@ == old(self)@.shift_left(x as int),
            final(self)@.v[15] == old(self)@.v[x as int] / 128,
            x != 15 ==> final(self)@.v[x as int] == (old(self)@.v[x as int] * 2) % 256,
    {
        let a = self.v[x];
        assert(a << 1 == (a * 2) % 256) by (bit_vector);
        assert((a & 0x80) >> 7 == a / 128) by (bit_vector);
        self.v[x] = a << 1;
        self.v[0xF] = (a & 0x80) >> 7;
    }

    /// Skip the next instruction if Vx differs from Vy.
    fn sne_vx_vy(&mut self, x: usize, y: usize)
        requires
            x < 16,
            y < 16,
        ensures
            final(self)@ == old(self)@.skip_if(old(self)@.v[x as int] != old(self)@.v[y as int]),
    {
        if self.v[x] != self.v[y] {
            self.pc = self.pc.wrapping_add(2);
        }
    }

    /// I = `addr`.
    fn ld_i(&mut self, addr: u16)
        ensures
            final(self)@ == (State { i: addr, ..old(self)@ }),
    {
        self.i = addr;
    }

    /// Jump to `addr` + V0.
    fn jp_v0(&mut self, addr: u16)
        ensures
            final(self)@ == old(self)@.jump_offset(addr),
    {
        self.pc = addr.wrapping_add(self.v[0] as u16);
    }

    /// Vx = `random_byte` and `kk`.
    fn rnd(&mut self, x: usize, kk: u8, random_byte: u8)
        requires
            x < 16,
        ensures
            final(self)@ == old(self)@.with_register(x as int, random_byte & kk),
    {
        self.v[x] = random_byte & kk;
    }

    /// Draw the `n`-row sprite at I with its corner at (Vx, Vy); VF = 1 if a
    /// lit pixel was turned off, else 0.
    fn drw(&mut self, x: usize, y: usize, n: u8) -> (res: Result<(), ExecutionError>)
        requires
            x < 16,
            y < 16,
            n < 16,
        ensures
            final(self)@ == old(self)@.apply(
                Instruction::Draw { x: x as u8, y: y as u8, n },
                0,
            ).0,
            res == old(self)@.apply(Instruction::Draw { x: x as u8, y: y as u8, n }, 0).1,
    {
        let rows = n as usize;
        let start = self.i as usize;
        if rows > 0 && start + rows > MEMORY_SIZE {
            return Err(ExecutionError::OutOfBoundsAccess);
        }
        let left = self.v[x] as usize;
        let top = self.v[y] as usize;
        let collision = draw_sprite(
            &mut self.interface.screen,
            &self.memory,
            start,
            rows,
            left,
            top,
        );
        self.v[0xF] = if collision { 1 } else { 0 };
        Ok(())
    }

    /// Skip the next instruction if the key numbered Vx is down.
    fn skp(&mut self, x: usize) -> (res: Result<(), ExecutionError>)
        requires
            x < 16,
        ensures
            final(self)@ == old(self)@.apply(Instruction::SkipKeyPressed { x: x as u8 }, 0).0,
            res == old(self)@.apply(Instruction::SkipKeyPressed { x: x as u8 }, 0).1,
    {
        let key = self.v[x] as usize;
        if key >= KEY_COUNT {
            return Err(ExecutionError::OutOfBoundsAccess);
        }
        if self.interface.keypad[key] {
            self.pc = self.pc.wrapping_add(2);
        }
        Ok(())
    }

    /// Skip the next instruction if the key numbered Vx is up.
    fn sknp(&mut self, x: usize) -> (res: Result<(), ExecutionError>)
        requires
            x < 16,
        ensures
            final(self)@ == old(self)@.apply(Instruction::SkipKeyNotPressed { x: x as u8 }, 0).0,
            res == old(self)@.apply(Instruction::SkipKeyNotPressed { x: x as u8 }, 0).1,
    {
        let key = self.v[x] as usize;
        if key >= KEY_COUNT {
            return Err(ExecutionError::OutOfBoundsAccess);
        }
        if !self.interface.keypad[key] {
            self.pc = self.pc.wrapping_add(2);
        }
        Ok(())
    }

    /// Vx = delay timer.
    fn ld_vx_dt(&mut self, x: usize)
        requires
            x < 16,
        ensures
            final(self)@ == old(self)@.with_register(x as int, old(self)@.delay_timer),
    {
        self.v[x] = self.delay_timer;
    }

    /// Wait for a key: with a key down, Vx = the lowest number of a pressed
    /// key; with none down, the program counter goes back by one
    /// instruction, so that the next cycle comes here again.
    fn ld_vx_k(&mut self, x: usize)
        requires
            x < 16,
        ensures
            final(self)@ == old(self)@.wait_key(x as int),
    {
        let mut key: usize = 0;
        while key < 16
            invariant
                key <= 16,
                x < 16,
                *self == *old(self),
                forall|lower: int| 0 <= lower < key ==> !self.interface.keypad@[lower],
            decreases 16 - key,
        {
            if self.interface.keypad[key] {
                proof {
                    lemma_lowest_pressed(self.interface.keypad@, key as int);
                }
                self.v[x] = key as u8;
                return;
            }
            key = key + 1;
        }
        self.pc = self.pc.wrapping_sub(2);
    }

    /// Delay timer = Vx.
    fn ld_dt_vx(&mut self, x: usize)
        requires
            x < 16,
        ensures
            final(self)@ == (State { delay_timer: old(self)@.v[x as int], ..old(self)@ }),
    {
        self.delay_timer = self.v[x];
    }

    /// Sound timer = Vx.
    fn ld_st_vx(&mut self, x: usize)
        requires
            x < 16,
        ensures
            final(self)@ == (State { sound_timer: old(self)@.v[x as int], ..old(self)@ }),
    {
        self.sound_timer = self.v[x];
    }

    /// I = I + Vx in sixteen bits.
    fn add_i_vx(&mut self, x: usize)
        requires
            x < 16,
        ensures
            final(self)@ == old(self)@.add_index(x as int),
    {
        self.i = self.i.wrapping_add(self.v[x] as u16);
    }

    /// I = address of the glyph for the digit in Vx.
    fn ld_f_vx(&mut self, x: usize)
        requires
            x < 16,
        ensures
            final(self)@ == old(self)@.load_font(x as int),
    {
        self.i = self.v[x] as u16 * GLYPH_SIZE;
    }

    /// Store the hundreds, tens and units digit of Vx at I, I+1 and I+2.
    fn ld_b_vx(&mut self, x: usize) -> (res: Result<(), ExecutionError>)
        requires
            x < 16,
        ensures
            final(self)@ == old(self)@.apply(Instruction::StoreBcd { x: x as u8 }, 0).0,
            res == old(self)@.apply(Instruction::StoreBcd { x: x as u8 }, 0).1,
    {
        let start = self.i as usize;
        if start + 3 > MEMORY_SIZE {
            return Err(ExecutionError::OutOfBoundsAccess);
        }
        let vx = self.v[x];
        self.memory[start] = vx / 100;
        self.memory[start + 1] = (vx / 10) % 10;
        self.memory[start + 2] = vx % 10;
        Ok(())
    }

    /// Store V0 to Vx in memory from I on.
    fn ld_i_vx(&mut self, x: usize) -> (res: Result<(), ExecutionError>)
        requires
            x < 16,
        ensures
            final(self)@ == old(self)@.apply(Instruction::StoreRegisters { x: x as u8 }, 0).0,
            res == old(self)@.apply(Instruction::StoreRegisters { x: x as u8 }, 0).1,
    {
        let start = self.i as usize;
        if start + x + 1 > MEMORY_SIZE {
            return Err(ExecutionError::OutOfBoundsAccess);
        }
        let ghost before = self@;
        let mut r: usize = 0;
        while r <= x
            invariant
                r <= x + 1,
                x < 16,
                start == before.i,
                start + x + 1 <= 4096,
                self@ == (State {
                    memory: Seq::new(
                        4096,
                        |a: int|
                            if start <= a < start + r {
                                before.v[a - start]
                            } else {
                                before.memory[a]
                            },
                    ),
                    ..before
                }),
            decreases x + 1 - r,
        {
            self.memory[start + r] = self.v[r];
            r = r + 1;
        }
        Ok(())
    }

    /// Load V0 to Vx from memory from I on.
    fn ld_vx_i(&mut self, x: usize) -> (res: Result<(), ExecutionError>)
        requires
            x < 16,
        ensures
            final(self)@ == old(self)@.apply(Instruction::LoadRegisters { x: x as u8 }, 0).0,
            res == old(self)@.apply(Instruction::LoadRegisters { x: x as u8 }, 0).1,
    {
        let start = self.i as usize;
        if start + x + 1 > MEMORY_SIZE {
            return Err(ExecutionError::OutOfBoundsAccess);
        }
        let ghost before = self@;
        let mut r: usize = 0;
        while r <= x
            invariant
                r <= x + 1,
                x < 16,
                start == before.i,
                start + x + 1 <= 4096,
                self@ == (State {
                    v: Seq::new(
                        16,
                        |k: int| if k < r { before.memory[start + k] } else { before.v[k] },
                    ),
                    ..before
                }),
            decreases x + 1 - r,
        {
            self.v[r] = self.memory[start + r];
            r = r + 1;
        }
        Ok(())
    }

    /// The devices, for reading.
    pub fn interface(&self) -> (interface: &Interface)
        ensures
            interface.screen@ == self@.screen,
            interface.keypad@ == self@.keypad,
            interface.is_beeping == self@.beeping,
    {
        &self.interface
    }

    /// The devices, for the host to latch keys and drive the beeper. What
    /// the host leaves in them is the machine's display, keypad and beeper
    /// state from then on; the rest of the machine is untouched.
    pub fn interface_mut(&mut self) -> (interface: &mut Interface)
        ensures
            interface.screen@ == old(self)@.screen,
            interface.keypad@ == old(self)@.keypad,
            interface.is_beeping == old(self)@.beeping,
            final(self)@ == (State {
                screen: final(interface).screen@,
                keypad: final(interface).keypad@,
                beeping: final(interface).is_beeping,
                ..old(self)@
            }),
            old(self)@.wf(),
    {
        proof {
            use_type_invariant(&self.stack);
            self.lemma_wf();
        }
        &mut self.interface
    }

    /// The display: 64 by 32 pixels, row by row, `true` for a lit pixel.
    pub fn display(&self) -> (screen: &[bool; 2048])
        ensures
            screen@ == self@.screen,
    {
        &self.interface.screen
    }

    /// Marks key `index` as held down or released.
    pub fn set_key(&mut self, index: usize, pressed: bool)
        requires
            index < 16,
        ensures
            final(self)@ == (State {
                keypad: old(self)@.keypad.update(index as int, pressed),
                ..old(self)@
            }),
            old(self)@.wf(),
            final(self)@.wf(),
    {
        proof {
            use_type_invariant(&self.stack);
            self.lemma_wf();
        }
        self.interface.keypad[index] = pressed;
    }

    /// Overwrites the keypad latch: a key is down exactly if its number is
    /// among `pressed`.
    pub fn set_keys(&mut self, pressed: &[u8])
        ensures
            final(self)@ == (State {
                keypad: Seq::new(16, |index: int| pressed@.contains(index as u8)),
                ..old(self)@
            }),
            old(self)@.wf(),
            final(self)@.wf(),
    {
        proof {
            use_type_invariant(&self.stack);
            self.lemma_wf();
        }
        let ghost before = self@;
        self.interface.keypad = [false; 16];
        let mut j: usize = 0;
        while j < pressed.len()
            invariant
                j <= pressed.len(),
                self@ == (State {
                    keypad: Seq::new(
                        16,
                        |index: int| pressed@.take(j as int).contains(index as u8),
                    ),
                    ..before
                }),
            decreases pressed.len() - j,
        {
            let key = pressed[j] as usize;
            if key < 16 {
                self.interface.keypad[key] = true;
            }
            proof {
                let taken = pressed@.take(j as int);
                let more = pressed@.take(j + 1);
                assert(more =~= taken.push(pressed@[j as int]));
                assert forall|key: u8| key < 16 implies (#[trigger] more.contains(key) <==> (
                taken.contains(key) || pressed@[j as int] == key)) by {
                    if taken.contains(key) {
                        let w = choose|w: int| 0 <= w < taken.len() && taken[w] == key;
                        assert(more[w] == key);
                    }
                    if pressed@[j as int] == key {
                        assert(more[j as int] == key);
                    }
                }
            }
            j = j + 1;
        }
        assert(pressed@.take(pressed@.len() as int) =~= pressed@);
    }

    /// The 4096 bytes of memory.
    pub fn memory(&self) -> (memory: &[u8; 4096])
        ensures
            memory@ == self@.memory,
    {
        &self.memory
    }

    /// The registers V0 to VF.
    pub fn registers(&self) -> (registers: &[u8; 16])
        ensures
            registers@ == self@.v,
    {
        &self.v
    }

    /// The index register I.
    pub fn index(&self) -> (index: u16)
        ensures
            index == self@.i,
    {
        self.i
    }

    /// The program counter.
    pub fn pc(&self) -> (pc: u16)
        ensures
            pc == self@.pc,
    {
        self.pc
    }

    /// The number of subroutine calls in progress.
    pub fn stack_depth(&self) -> (depth: usize)
        ensures
            depth == self@.stack.len(),
            depth <= 16,
    {
        self.stack.depth()
    }

    /// The delay timer.
    pub fn delay_timer(&self) -> (timer: u8)
        ensures
            timer == self@.delay_timer,
    {
        self.delay_timer
    }

    /// The sound timer.
    pub fn sound_timer(&self) -> (timer: u8)
        ensures
            timer == self@.sound_timer,
    {
        self.sound_timer
    }
}

} // verus!

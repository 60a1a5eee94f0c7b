//! The mathematical model of the machine: what a machine state is, and the
//! state a freshly built machine starts from.

use vstd::prelude::*;

verus! {

/// Number of addressable bytes.
pub const MEMORY_SIZE: usize = 4096;

/// Address at which program images are placed and execution starts.
pub const PROGRAM_START: u16 = 0x200;

/// Largest program image that fits above the reserved area.
pub const MAX_PROGRAM_SIZE: usize = 3584;

/// Number of general registers, V0 to VF.
pub const REGISTER_COUNT: usize = 16;

/// Index of VF, the register that doubles as carry, borrow and collision flag.
pub const FLAG_REGISTER: usize = 15;

/// Number of return addresses the call stack holds.
pub const STACK_DEPTH: usize = 16;

/// Number of keys on the keypad.
pub const KEY_COUNT: usize = 16;

/// Display width in pixels.
pub const SCREEN_WIDTH: usize = 64;

/// Display height in pixels.
pub const SCREEN_HEIGHT: usize = 32;

/// Number of pixels of the display, stored row by row.
pub const SCREEN_PIXELS: usize = 2048;

/// Bytes per built-in glyph.
pub const GLYPH_SIZE: u16 = 5;

/// Bytes taken by the sixteen built-in glyphs.
pub const FONT_SIZE: usize = 80;

/// The built-in glyphs for the hexadecimal digits 0 to F, five bytes each,
/// in the order in which they lie at the bottom of memory. Each byte is one
/// row of a glyph, its four high bits the pixels.
pub const FONTSET: [u8; 80] = [
    0xF0, 0x90, 0x90, 0x90, 0xF0,  // 0
    0x20, 0x60, 0x20, 0x20, 0x70,  // 1
    0xF0, 0x10, 0xF0, 0x80, 0xF0,  // 2
    0xF0, 0x10, 0xF0, 0x10, 0xF0,  // 3
    0x90, 0x90, 0xF0, 0x10, 0x10,  // 4
    0xF0, 0x80, 0xF0, 0x10, 0xF0,  // 5
    0xF0, 0x80, 0xF0, 0x90, 0xF0,  // 6
    0xF0, 0x10, 0x20, 0x40, 0x40,  // 7
    0xF0, 0x90, 0xF0, 0x90, 0xF0,  // 8
    0xF0, 0x90, 0xF0, 0x10, 0xF0,  // 9
    0xF0, 0x90, 0xF0, 0x90, 0x90,  // A
    0xE0, 0x90, 0xE0, 0x90, 0xE0,  // B
    0xF0, 0x80, 0x80, 0x80, 0xF0,  // C
    0xE0, 0x90, 0x90, 0x90, 0xE0,  // D
    0xF0, 0x80, 0xF0, 0x80, 0xF0,  // E
    0xF0, 0x80, 0xF0, 0x80, 0x80,  // F
];

/// A complete machine state.
///
/// `stack` holds the return addresses of the calls in progress, oldest first;
/// `screen` holds the pixels row by row, `true` for a lit pixel; `keypad`
/// holds one flag per key, `true` while the key is held down; `beeping`
/// tells whether the beeper was last told to sound.
#[verifier::ext_equal]
pub struct State {
    pub memory: Seq<u8>,
    pub v: Seq<u8>,
    pub i: u16,
    pub pc: u16,
    pub stack: Seq<u16>,
    pub delay_timer: u8,
    pub sound_timer: u8,
    pub screen: Seq<bool>,
    pub keypad: Seq<bool>,
    pub beeping: bool,
}

impl State {
    /// Every component has the size the machine fixes for it.
    pub open spec fn wf(self) -> bool {
        &&& self.memory.len() == MEMORY_SIZE
        &&& self.v.len() == REGISTER_COUNT
        &&& self.stack.len() <= STACK_DEPTH
        &&& self.screen.len() == SCREEN_PIXELS
        &&& self.keypad.len() == KEY_COUNT
    }

    /// The state of a machine that has just been built around devices in the
    /// given state: glyphs at the bottom of memory, everything else zero,
    /// empty stack, program counter at the start of program space.
    pub open spec fn power_on(screen: Seq<bool>, keypad: Seq<bool>, beeping: bool) -> State {
        State {
            memory: Seq::new(
                MEMORY_SIZE as nat,
                |a: int| if a < FONT_SIZE { FONTSET@[a] } else { 0u8 },
            ),
            v: Seq::new(REGISTER_COUNT as nat, |r: int| 0u8),
            i: 0,
            pc: PROGRAM_START,
            stack: Seq::empty(),
            delay_timer: 0,
            sound_timer: 0,
            screen,
            keypad,
            beeping,
        }
    }

    /// The state with `rom` copied into memory from the start of program space.
    pub open spec fn with_program(self, rom: Seq<u8>) -> State {
        State {
            memory: Seq::new(
                MEMORY_SIZE as nat,
                |a: int|
                    if PROGRAM_START <= a < PROGRAM_START + rom.len() {
                        rom[a - PROGRAM_START]
                    } else {
                        self.memory[a]
                    },
            ),
            ..self
        }
    }

    /// The state after one timer tick: each timer one lower, unless it is zero.
    pub open spec fn tick(self) -> State {
        State {
            delay_timer: if self.delay_timer > 0 { (self.delay_timer - 1) as u8 } else { 0 },
            sound_timer: if self.sound_timer > 0 { (self.sound_timer - 1) as u8 } else { 0 },
            ..self
        }
    }
}

} // verus!

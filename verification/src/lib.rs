//! A CHIP-8 virtual machine: 4096 bytes of memory, sixteen registers, a
//! sixteen-level call stack, two timers, a 64 by 32 display and a
//! sixteen-key keypad.
//!
//! [`Chip8`] is the machine. The host loads a program, then calls
//! [`Chip8::emulate_cycle`] at the processor's rate and
//! [`Chip8::tick_timers`] sixty times a second, latches keys into the
//! machine's [`Interface`] and shows its display. What each call does to the
//! machine is stated over [`state::State`], the model in `semantics`, and
//! proved.

pub mod decode;
pub mod display;
pub mod error;
pub mod interface;
pub mod laws;
pub mod machine;
pub mod semantics;
pub mod stack;
pub mod state;

pub use crate::decode::{decode, Instruction};
pub use crate::error::{ExecutionError, LoadError, SoundState};
pub use crate::interface::{Interface, Key, PIXEL_OFF, PIXEL_ON};
pub use crate::machine::Chip8;
pub use crate::stack::CallStack;

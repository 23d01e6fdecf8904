//! A CHIP-8 virtual machine: the decoder, the execution engine, the timers
//! and the run loop, each with a contract over the machine as a mathematical
//! value ([`model::Machine`]).
//!
//! The host loads a program, reports key changes, lets the machine run for a
//! number of instruction cycles at a time, and paints the display and sounds
//! the tone as the machine asks for it. Nothing here touches a file, a screen,
//! a speaker or a clock.

pub mod chip8;
pub mod display;
pub mod error;
pub mod exec;
pub mod font;
pub mod host;
pub mod laws;
pub mod model;
pub mod nibble;
pub mod op;
pub mod run;
pub mod timer;

pub use crate::chip8::Chip8;
pub use crate::error::Error;
pub use crate::nibble::n_nibbles;
pub use crate::op::{decode, Op};
pub use crate::timer::Timer;

//! An emulator core for the CHIP-8 virtual machine: instruction decoding,
//! memory, registers, timers, the pixel grid and the execution engine.

pub mod chip8;
pub mod cpu;
pub mod display;
pub mod errors;
pub mod keypad;
pub mod laws;
pub mod memory;
pub mod opcode;
pub mod pacer;
pub mod registers;
pub mod timers;

pub use chip8::Chip8;
pub use cpu::CPU;
pub use display::{Color, Display};
pub use errors::Chip8Error;
pub use keypad::Keypad;
pub use memory::Memory;
pub use opcode::{Addr, Nib, OpCode};
pub use pacer::Pacer;
pub use registers::Registers;
pub use timers::Timers;

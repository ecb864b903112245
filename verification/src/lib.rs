//! A verified execution core for a small 8-bit virtual machine: 4 KiB of
//! memory, sixteen 8-bit registers, a 12-bit index register, a bounded
//! call stack, and a fetch-decode-execute engine whose every instruction
//! is specified by, and proved equal to, one abstract step function.
//! Program loading from disk, pacing and rendering belong to the host.

pub mod error;
pub mod ram;
pub mod display;
pub mod bus;
pub mod decode;
pub mod cpu;
pub mod chip8;
pub mod laws;

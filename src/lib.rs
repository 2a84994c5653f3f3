//! Core of a PlayStation emulator: the MIPS R3000A interpreter with its
//! instruction cache and system control coprocessor, the memory bus it
//! runs against and the BIOS image it boots from.

pub mod instruction;
pub mod icache;
pub mod shared;
pub mod cop0;
pub mod bytes;
pub mod bios;
pub mod memory;
pub mod gte;
pub mod cpu;

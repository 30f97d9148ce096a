//! Instruction-execution core of an 8-bit handheld console: memory regions,
//! cartridges with bank switching, the bus, the register file, the
//! instruction decoder and the CPU engine, each with its model and contracts.

pub mod error;
pub mod memory;
pub mod cartridge;
pub mod bus;
pub mod registers;
pub mod alu;
pub mod instruction;
pub mod cpu;

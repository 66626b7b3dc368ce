//! Emulation core for an 8-bit cartridge-driven processor: a validated
//! cartridge memory, a register and flag model, and a fetch-decode-execute
//! engine driven by an instruction table.

pub mod cartdrige;
pub mod cpu;
pub mod register;

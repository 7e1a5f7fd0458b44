//! A cycle-stepped model of a 1977 home game console: the CPU's instruction
//! engine, the video chip that derives and gates the CPU clock, the interval
//! timer, and the bus that routes every access between them.
pub mod status;
pub mod alu;
pub mod memory;
pub mod cartridge;
pub mod fault;
pub mod pia;
pub mod tia;
pub mod bus;
pub mod cpu;
pub mod addressing;
pub mod ops;
pub mod timing;
pub mod engine;
pub mod clock;

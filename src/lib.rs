//! A cycle-stepped model of a 6502-family CPU, its memory bus, and
//! cartridges in the iNES container format.
pub mod mapper;
pub mod cartridge;
pub mod bus;
pub mod opcodes;
pub mod model;
pub mod cpu;
pub mod laws;
pub mod display;
pub mod frontend;

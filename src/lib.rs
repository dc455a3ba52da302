//! Core of an 8-bit handheld console emulator: sized little-endian memory
//! access, the address-space bus, the video unit and the CPU engine.

pub mod bus;
pub mod mem;
pub mod video;
pub mod cpu;

//! Save-media access for cartridge software, together with the plain-value
//! parts of the system call interface.
//!
//! The save layer presents one byte-addressable contract over SRAM, two
//! flash chips and two EEPROM densities. Every hardware wait is bounded, flash
//! programming is verified by a read-back pass, and sector erases are tracked
//! per write session so that no sector is erased twice while still blank.

pub mod media;
pub mod error;
pub mod chip;
pub mod timeout;
pub mod protocol;
pub mod erase;
pub mod save;
pub mod laws;
pub mod bios;
pub mod rom;
pub mod background;

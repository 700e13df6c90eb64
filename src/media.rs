//! The save media a cartridge can carry, with their sizes, sectoring and
//! wait bounds.

use vstd::prelude::*;

verus! {

/// Which save technology the cartridge carries.
#[derive(Debug, Clone, Copy, PartialEq, Eq, Structural)]
pub enum MediaType {
    /// Battery-backed static RAM, 32 KiB.
    Sram,
    /// Flash memory, 64 KiB in 4 KiB sectors.
    Flash64K,
    /// Flash memory, 128 KiB in two 64 KiB banks of 4 KiB sectors.
    Flash128K,
    /// Serial EEPROM, 512 bytes.
    Eeprom512,
    /// Serial EEPROM, 8 KiB.
    Eeprom8K,
}

/// Size of a flash erase sector in bytes.
pub const FLASH_SECTOR_BYTES: usize = 4096;

/// Size of one flash bank, the window that the flash chip maps at a time.
pub const FLASH_BANK_BYTES: usize = 65536;

/// Size of one EEPROM word, the unit of every serial transfer.
pub const EEPROM_WORD_BYTES: usize = 8;

/// Total addressable bytes of a medium.
pub open spec fn capacity(m: MediaType) -> nat {
    match m {
        MediaType::Sram => 32768,
        MediaType::Flash64K => 65536,
        MediaType::Flash128K => 131072,
        MediaType::Eeprom512 => 512,
        MediaType::Eeprom8K => 8192,
    }
}

/// Erase-sector size of a medium; zero where no erase is needed.
pub open spec fn sector_bytes(m: MediaType) -> nat {
    match m {
        MediaType::Flash64K | MediaType::Flash128K => 4096,
        _ => 0,
    }
}

pub open spec fn is_flash(m: MediaType) -> bool {
    m is Flash64K || m is Flash128K
}

pub open spec fn is_eeprom(m: MediaType) -> bool {
    m is Eeprom512 || m is Eeprom8K
}

/// Number of erase sectors of a medium (zero for erase-free media).
pub open spec fn sector_count(m: MediaType) -> nat {
    if is_flash(m) {
        capacity(m) / 4096
    } else {
        0
    }
}

/// Number of polls a single hardware operation may take before it is
/// reported as timed out.
pub open spec fn poll_bound(m: MediaType) -> nat {
    match m {
        MediaType::Sram => 1,
        MediaType::Flash64K | MediaType::Flash128K => 4096,
        MediaType::Eeprom512 | MediaType::Eeprom8K => 1024,
    }
}

/// Derived, read-only description of a medium.
#[derive(Debug, Clone, Copy, PartialEq, Eq, Structural)]
pub struct MediaInfo {
    pub media_type: MediaType,
    pub total_size_bytes: usize,
    pub sector_size_bytes: usize,
}

impl MediaType {
    /// Total addressable bytes.
    pub fn len(&self) -> (r: usize)
        ensures
            r == capacity(*self),
    {
        match self {
            MediaType::Sram => 32768,
            MediaType::Flash64K => 65536,
            MediaType::Flash128K => 131072,
            MediaType::Eeprom512 => 512,
            MediaType::Eeprom8K => 8192,
        }
    }

    /// Erase-sector size in bytes, zero for SRAM and EEPROM.
    pub fn sector_size(&self) -> (r: usize)
        ensures
            r == sector_bytes(*self),
    {
        match self {
            MediaType::Flash64K | MediaType::Flash128K => FLASH_SECTOR_BYTES,
            _ => 0,
        }
    }

    /// Number of polls after which a hardware operation counts as timed out.
    pub fn timeout_polls(&self) -> (r: u32)
        ensures
            r == poll_bound(*self),
    {
        match self {
            MediaType::Sram => 1,
            MediaType::Flash64K | MediaType::Flash128K => 4096,
            MediaType::Eeprom512 | MediaType::Eeprom8K => 1024,
        }
    }

    pub fn is_flash(&self) -> (r: bool)
        ensures
            r == is_flash(*self),
    {
        matches!(self, MediaType::Flash64K | MediaType::Flash128K)
    }

    pub fn is_eeprom(&self) -> (r: bool)
        ensures
            r == is_eeprom(*self),
    {
        matches!(self, MediaType::Eeprom512 | MediaType::Eeprom8K)
    }

    /// The description of this medium.
    pub fn info(&self) -> (r: MediaInfo)
        ensures
            r.media_type == *self,
            r.total_size_bytes == capacity(*self),
            r.sector_size_bytes == sector_bytes(*self),
    {
        MediaInfo { media_type: *self, total_size_bytes: self.len(), sector_size_bytes: self.sector_size() }
    }
}

} // verus!

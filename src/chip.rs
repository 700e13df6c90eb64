//! A save chip as the access protocols see it: its cells, the flash command
//! interpreter (unlock, sector erase, byte program, bank switch), the EEPROM
//! word transfers, and a completion flag that may take a while to rise or
//! never rise. Counters of erases and polls let callers observe the work done.

use vstd::prelude::*;

use crate::media::{
    capacity, is_eeprom, is_flash, MediaType, EEPROM_WORD_BYTES, FLASH_BANK_BYTES,
    FLASH_SECTOR_BYTES,
};

verus! {

/// First command address of the flash unlock sequence.
pub const FLASH_CMD_ADDR_1: usize = 0x5555;

/// Second command address of the flash unlock sequence.
pub const FLASH_CMD_ADDR_2: usize = 0x2AAA;

pub const FLASH_UNLOCK_1: u8 = 0xAA;

pub const FLASH_UNLOCK_2: u8 = 0x55;

/// Arms a sector erase; a second unlock and `FLASH_ERASE_SECTOR` follow.
pub const FLASH_ERASE_MODE: u8 = 0x80;

/// Erases the sector whose base address it is written to.
pub const FLASH_ERASE_SECTOR: u8 = 0x30;

/// Arms the programming of one byte.
pub const FLASH_PROGRAM: u8 = 0xA0;

/// Arms a bank switch; the bank number is written to address zero.
pub const FLASH_SET_BANK: u8 = 0xB0;

/// The value of every bit of an erased cell.
pub const ERASED_BYTE: u8 = 0xFF;

/// Where the flash command interpreter stands between two command writes.
#[derive(Debug, Clone, Copy, PartialEq, Eq, Structural)]
pub enum FlashPhase {
    Idle,
    Unlock1,
    Unlocked,
    EraseArmed,
    EraseUnlock1,
    EraseUnlocked,
    ProgramArmed,
    BankArmed,
}

/// Mathematical state of a save chip.
pub struct ChipView {
    pub media: MediaType,
    /// Every addressable byte of the medium.
    pub cells: Seq<u8>,
    pub phase: FlashPhase,
    /// Flash bank mapped into the 64 KiB window.
    pub bank: nat,
    /// Polls still answered "busy" before the last operation reports done.
    pub pending: nat,
    /// Polls each operation takes before it reports done.
    pub latency: nat,
    /// The chip never reports completion.
    pub stuck: bool,
    /// Flash programming silently leaves the cells as they were.
    pub worn: bool,
    /// Another operation holds the medium.
    pub held: bool,
    /// Sector erases performed (saturating).
    pub erases: nat,
    /// Completion polls answered (saturating).
    pub polls: nat,
}

/// A counter step that stops at the largest `u64`.
pub open spec fn bump(n: nat) -> nat {
    if n < u64::MAX {
        n + 1
    } else {
        n
    }
}

/// Cells after erasing sector `s`.
pub open spec fn erased_sector(cells: Seq<u8>, s: nat) -> Seq<u8> {
    Seq::new(
        cells.len(),
        |i: int|
            if s * 4096 <= i < (s + 1) * 4096 {
                ERASED_BYTE
            } else {
                cells[i]
            },
    )
}

/// A cell after programming `v` into it: programming only clears bits, and
/// worn cells keep what they held.
pub open spec fn programmed_byte(old: u8, v: u8, worn: bool) -> u8 {
    if worn {
        old
    } else {
        old & v
    }
}

/// Chip state after a write of `v` to flash window address `addr`.
pub open spec fn flash_step(s: ChipView, addr: nat, v: u8) -> ChipView {
    let idle = ChipView { phase: FlashPhase::Idle, ..s };
    match s.phase {
        FlashPhase::Idle => if addr == 0x5555 && v == FLASH_UNLOCK_1 {
            ChipView { phase: FlashPhase::Unlock1, ..s }
        } else {
            idle
        },
        FlashPhase::Unlock1 => if addr == 0x2AAA && v == FLASH_UNLOCK_2 {
            ChipView { phase: FlashPhase::Unlocked, ..s }
        } else {
            idle
        },
        FlashPhase::Unlocked => if addr == 0x5555 && v == FLASH_ERASE_MODE {
            ChipView { phase: FlashPhase::EraseArmed, ..s }
        } else if addr == 0x5555 && v == FLASH_PROGRAM {
            ChipView { phase: FlashPhase::ProgramArmed, ..s }
        } else if addr == 0x5555 && v == FLASH_SET_BANK {
            ChipView { phase: FlashPhase::BankArmed, ..s }
        } else {
            idle
        },
        FlashPhase::EraseArmed => if addr == 0x5555 && v == FLASH_UNLOCK_1 {
            ChipView { phase: FlashPhase::EraseUnlock1, ..s }
        } else {
            idle
        },
        FlashPhase::EraseUnlock1 => if addr == 0x2AAA && v == FLASH_UNLOCK_2 {
            ChipView { phase: FlashPhase::EraseUnlocked, ..s }
        } else {
            idle
        },
        FlashPhase::EraseUnlocked => if v == FLASH_ERASE_SECTOR && addr % 4096 == 0 {
            ChipView {
                phase: FlashPhase::Idle,
                cells: erased_sector(s.cells, (s.bank * 65536 + addr) / 4096),
                pending: s.latency,
                erases: bump(s.erases),
                ..s
            }
        } else {
            idle
        },
        FlashPhase::ProgramArmed => {
            let a = s.bank * 65536 + addr;
            ChipView {
                phase: FlashPhase::Idle,
                cells: s.cells.update(a as int, programmed_byte(s.cells[a as int], v, s.worn)),
                pending: s.latency,
                ..s
            }
        },
        FlashPhase::BankArmed => if addr == 0 && s.media is Flash128K && v <= 1 {
            ChipView { phase: FlashPhase::Idle, bank: v as nat, ..s }
        } else {
            idle
        },
    }
}

/// Size of the memory-mapped window of a medium.
pub open spec fn window_bytes(m: MediaType) -> nat {
    match m {
        MediaType::Sram => 32768,
        MediaType::Flash64K | MediaType::Flash128K => 65536,
        _ => 0,
    }
}

/// A simulated save chip: the cells of the medium and the protocol by which
/// the hardware accepts commands and reports completion.
pub struct SaveChip {
    media: MediaType,
    cells: Vec<u8>,
    phase: FlashPhase,
    bank: usize,
    pending: u32,
    latency: u32,
    stuck: bool,
    worn: bool,
    held: bool,
    erases: u64,
    polls: u64,
}

impl View for SaveChip {
    type V = ChipView;

    closed spec fn view(&self) -> ChipView {
        ChipView {
            media: self.media,
            cells: self.cells@,
            phase: self.phase,
            bank: self.bank as nat,
            pending: self.pending as nat,
            latency: self.latency as nat,
            stuck: self.stuck,
            worn: self.worn,
            held: self.held,
            erases: self.erases as nat,
            polls: self.polls as nat,
        }
    }
}

/// Well-formedness of a chip state.
pub open spec fn chip_wf(s: ChipView) -> bool {
    &&& s.cells.len() == capacity(s.media)
    &&& s.bank <= 1
    &&& s.bank == 1 ==> s.media is Flash128K
    &&& s.pending <= s.latency
    &&& s.latency <= u32::MAX
    &&& s.erases <= u64::MAX
    &&& s.polls <= u64::MAX
}

impl SaveChip {
    pub open spec fn wf(&self) -> bool {
        chip_wf(self@)
    }

    /// Well-formed, with no flash command sequence half issued.
    pub open spec fn idle(&self) -> bool {
        self.wf() && self@.phase is Idle
    }

    /// A healthy chip of the given medium whose cells are all erased.
    pub fn new(media: MediaType) -> (r: SaveChip)
        ensures
            r.wf(),
            r@.media == media,
            r@.cells == Seq::new(capacity(media), |i: int| ERASED_BYTE),
            r@.phase == FlashPhase::Idle,
            r@.bank == 0,
            r@.pending == 0,
            r@.latency == 0,
            !r@.stuck,
            !r@.worn,
            !r@.held,
            r@.erases == 0,
            r@.polls == 0,
    {
        let n = media.len();
        let mut cells: Vec<u8> = Vec::new();
        while cells.len() < n
            invariant
                cells.len() <= n,
                forall|i: int| 0 <= i < cells.len() ==> cells@[i] == ERASED_BYTE,
            decreases n - cells.len(),
        {
            cells.push(ERASED_BYTE);
        }
        assert(cells@ == Seq::new(capacity(media), |i: int| ERASED_BYTE));
        SaveChip {
            media,
            cells,
            phase: FlashPhase::Idle,
            bank: 0,
            pending: 0,
            latency: 0,
            stuck: false,
            worn: false,
            held: false,
            erases: 0,
            polls: 0,
        }
    }

    pub fn media(&self) -> (r: MediaType)
        ensures
            r == self@.media,
    {
        self.media
    }

    /// Sector erases performed so far.
    pub fn erase_count(&self) -> (r: u64)
        ensures
            r == self@.erases,
    {
        self.erases
    }

    /// Completion polls answered so far.
    pub fn poll_count(&self) -> (r: u64)
        ensures
            r == self@.polls,
    {
        self.polls
    }

    /// The flash bank currently mapped.
    pub fn bank(&self) -> (r: usize)
        requires
            self.wf(),
        ensures
            r == self@.bank,
    {
        self.bank
    }

    pub fn is_held(&self) -> (r: bool)
        ensures
            r == self@.held,
    {
        self.held
    }

    /// Sets how many polls each later operation takes before it reports done.
    pub fn set_latency(&mut self, polls: u32)
        requires
            old(self).wf(),
        ensures
            final(self).wf(),
            final(self)@ == (ChipView { latency: polls as nat, pending: 0, ..old(self)@ }),
    {
        self.latency = polls;
        self.pending = 0;
    }

    /// Makes the chip never (or again) report completion.
    pub fn set_stuck(&mut self, stuck: bool)
        requires
            old(self).wf(),
        ensures
            final(self).wf(),
            final(self)@ == (ChipView { stuck, ..old(self)@ }),
    {
        self.stuck = stuck;
    }

    /// Makes flash programming silently fail (or work again).
    pub fn set_worn(&mut self, worn: bool)
        requires
            old(self).wf(),
        ensures
            final(self).wf(),
            final(self)@ == (ChipView { worn, ..old(self)@ }),
    {
        self.worn = worn;
    }

    /// Marks the medium as held (or released) by an operation in flight.
    pub fn set_held(&mut self, held: bool)
        requires
            old(self).wf(),
        ensures
            final(self).wf(),
            final(self)@ == (ChipView { held, ..old(self)@ }),
    {
        self.held = held;
    }

    /// The completion poll: true once the last operation is done.
    pub(crate) fn is_ready(&mut self) -> (r: bool)
        requires
            old(self).wf(),
        ensures
            final(self).wf(),
            r == (!old(self)@.stuck && old(self)@.pending == 0),
            final(self)@ == (ChipView {
                pending: if r || old(self)@.stuck {
                    old(self)@.pending
                } else {
                    (old(self)@.pending - 1) as nat
                },
                polls: bump(old(self)@.polls),
                ..old(self)@
            }),
    {
        if self.polls < u64::MAX {
            self.polls = self.polls + 1;
        }
        if self.stuck {
            false
        } else if self.pending == 0 {
            true
        } else {
            self.pending = self.pending - 1;
            false
        }
    }

    /// Memory-mapped read of window address `addr`.
    pub(crate) fn read_cell(&self, addr: usize) -> (r: u8)
        requires
            self.wf(),
            !is_eeprom(self@.media),
            addr < window_bytes(self@.media),
        ensures
            r == self@.cells[self@.bank * 65536 + addr],
    {
        let a = self.bank * FLASH_BANK_BYTES + addr;
        self.cells[a]
    }

    /// Memory-mapped write of `v` to window address `addr`: a store for SRAM,
    /// a command for flash.
    pub(crate) fn write_cell(&mut self, addr: usize, v: u8)
        requires
            old(self).wf(),
            !is_eeprom(old(self)@.media),
            addr < window_bytes(old(self)@.media),
        ensures
            final(self).wf(),
            old(self)@.media is Sram ==> final(self)@ == (ChipView {
                cells: old(self)@.cells.update(addr as int, v),
                ..old(self)@
            }),
            is_flash(old(self)@.media) ==> final(self)@ == flash_step(old(self)@, addr as nat, v),
    {
        if matches!(self.media, MediaType::Sram) {
            self.cells[addr] = v;
            return;
        }
        let ghost s = self@;
        match self.phase {
            FlashPhase::Idle => {
                self.phase = if addr == FLASH_CMD_ADDR_1 && v == FLASH_UNLOCK_1 {
                    FlashPhase::Unlock1
                } else {
                    FlashPhase::Idle
                };
            },
            FlashPhase::Unlock1 => {
                self.phase = if addr == FLASH_CMD_ADDR_2 && v == FLASH_UNLOCK_2 {
                    FlashPhase::Unlocked
                } else {
                    FlashPhase::Idle
                };
            },
            FlashPhase::Unlocked => {
                self.phase = if addr == FLASH_CMD_ADDR_1 && v == FLASH_ERASE_MODE {
                    FlashPhase::EraseArmed
                } else if addr == FLASH_CMD_ADDR_1 && v == FLASH_PROGRAM {
                    FlashPhase::ProgramArmed
                } else if addr == FLASH_CMD_ADDR_1 && v == FLASH_SET_BANK {
                    FlashPhase::BankArmed
                } else {
                    FlashPhase::Idle
                };
            },
            FlashPhase::EraseArmed => {
                self.phase = if addr == FLASH_CMD_ADDR_1 && v == FLASH_UNLOCK_1 {
                    FlashPhase::EraseUnlock1
                } else {
                    FlashPhase::Idle
                };
            },
            FlashPhase::EraseUnlock1 => {
                self.phase = if addr == FLASH_CMD_ADDR_2 && v == FLASH_UNLOCK_2 {
                    FlashPhase::EraseUnlocked
                } else {
                    FlashPhase::Idle
                };
            },
            FlashPhase::EraseUnlocked => {
                self.phase = FlashPhase::Idle;
                if v == FLASH_ERASE_SECTOR && addr % FLASH_SECTOR_BYTES == 0 {
                    let base = self.bank * FLASH_BANK_BYTES + addr;
                    self.erase_cells(base);
                    self.pending = self.latency;
                    if self.erases < u64::MAX {
                        self.erases = self.erases + 1;
                    }
                }
            },
            FlashPhase::ProgramArmed => {
                self.phase = FlashPhase::Idle;
                let a = self.bank * FLASH_BANK_BYTES + addr;
                if !self.worn {
                    self.cells[a] = self.cells[a] & v;
                }
                self.pending = self.latency;
            },
            FlashPhase::BankArmed => {
                self.phase = FlashPhase::Idle;
                if addr == 0 && matches!(self.media, MediaType::Flash128K) && v <= 1 {
                    self.bank = v as usize;
                }
            },
        }
        assert(self@.cells == flash_step(s, addr as nat, v).cells);
    }

    /// Sets the sector of cells that starts at `base` to the erased value.
    fn erase_cells(&mut self, base: usize)
        requires
            old(self).wf(),
            is_flash(old(self)@.media),
            base % 4096 == 0,
            base < capacity(old(self)@.media),
        ensures
            final(self)@ == (ChipView {
                cells: erased_sector(old(self)@.cells, base as nat / 4096),
                ..old(self)@
            }),
    {
        let ghost s = self@.cells;
        let end = base + FLASH_SECTOR_BYTES;
        let mut i: usize = base;
        while i < end
            invariant
                base <= i <= end,
                end == base + 4096,
                end <= self.cells@.len(),
                self.cells@.len() == s.len(),
                self@ == (ChipView { cells: self.cells@, ..old(self)@ }),
                forall|j: int| 0 <= j < s.len() ==> self.cells@[j] == if base <= j < i {
                    ERASED_BYTE
                } else {
                    s[j]
                },
            decreases end - i,
        {
            self.cells[i] = ERASED_BYTE;
            i = i + 1;
        }
        assert(self.cells@ == erased_sector(s, base as nat / 4096));
    }

    /// Starts a serial read of EEPROM word `word`.
    pub(crate) fn eeprom_request_read(&mut self, word: usize)
        requires
            old(self).wf(),
            is_eeprom(old(self)@.media),
            word < capacity(old(self)@.media) / 8,
        ensures
            final(self).wf(),
            final(self)@ == (ChipView { pending: old(self)@.latency, ..old(self)@ }),
    {
        self.pending = self.latency;
    }

    /// Byte `i` of EEPROM word `word`, valid once a read request completed.
    pub(crate) fn eeprom_fetch(&self, word: usize, i: usize) -> (r: u8)
        requires
            self.wf(),
            is_eeprom(self@.media),
            word < capacity(self@.media) / 8,
            i < 8,
        ensures
            r == self@.cells[word * 8 + i],
    {
        self.cells[word * EEPROM_WORD_BYTES + i]
    }

    /// Starts a serial write of the eight bytes `data` into EEPROM word `word`.
    pub(crate) fn eeprom_request_write(&mut self, word: usize, data: &[u8])
        requires
            old(self).wf(),
            is_eeprom(old(self)@.media),
            word < capacity(old(self)@.media) / 8,
            data@.len() == 8,
        ensures
            final(self).wf(),
            final(self)@ == (ChipView {
                cells: old(self)@.cells.take(word * 8).add(data@).add(
                    old(self)@.cells.skip(word * 8 + 8),
                ),
                pending: old(self)@.latency,
                ..old(self)@
            }),
    {
        let ghost s = self@.cells;
        let base = word * EEPROM_WORD_BYTES;
        let mut i: usize = 0;
        while i < EEPROM_WORD_BYTES
            invariant
                i <= 8,
                base == word * 8,
                base + 8 <= s.len(),
                data@.len() == 8,
                self.cells@.len() == s.len(),
                self@ == (ChipView { cells: self.cells@, ..old(self)@ }),
                forall|j: int| 0 <= j < s.len() ==> self.cells@[j] == if base <= j < base + i {
                    data@[j - base]
                } else {
                    s[j]
                },
            decreases 8 - i,
        {
            self.cells[base + i] = data[i];
            i = i + 1;
        }
        self.pending = self.latency;
        assert(self.cells@ == s.take(word * 8).add(data@).add(s.skip(word * 8 + 8)));
    }
}

} // verus!

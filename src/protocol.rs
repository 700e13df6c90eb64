//! The per-medium access protocols: read, sector erase and program.

use vstd::prelude::*;

use crate::chip::{
    bump, chip_wf, erased_sector, programmed_byte, ChipView, FlashPhase, SaveChip, FLASH_CMD_ADDR_1, FLASH_CMD_ADDR_2,
    FLASH_ERASE_MODE, FLASH_ERASE_SECTOR, FLASH_PROGRAM, FLASH_SET_BANK, FLASH_UNLOCK_1,
    FLASH_UNLOCK_2,
};
use crate::error::Error;
use crate::media::{
    capacity, is_eeprom, is_flash, poll_bound, sector_count, MediaType, FLASH_BANK_BYTES,
    FLASH_SECTOR_BYTES,
};
use crate::timeout::{after_wait, completes_within, sat_add, wait_ready};

verus! {

/// The chip `b` keeps the configuration of `a` and stands idle.
pub open spec fn settled(a: ChipView, b: ChipView) -> bool {
    &&& chip_wf(b)
    &&& b.phase is Idle
    &&& b.media == a.media
    &&& b.latency == a.latency
    &&& b.stuck == a.stuck
    &&& b.worn == a.worn
    &&& b.held == a.held
}

/// Every hardware wait of the chip completes within the bound of its medium.
pub open spec fn timely(s: ChipView) -> bool {
    !s.stuck && s.latency < poll_bound(s.media)
}

/// Issues the two-write unlock sequence that precedes every flash command.
fn flash_unlock(chip: &mut SaveChip)
    requires
        old(chip).idle(),
        is_flash(old(chip)@.media),
    ensures
        final(chip).wf(),
        final(chip)@ == (ChipView { phase: FlashPhase::Unlocked, ..old(chip)@ }),
{
    chip.write_cell(FLASH_CMD_ADDR_1, FLASH_UNLOCK_1);
    chip.write_cell(FLASH_CMD_ADDR_2, FLASH_UNLOCK_2);
}

/// Maps flash bank `bank` into the window, issuing the bank command only
/// where another bank is mapped.
fn flash_select_bank(chip: &mut SaveChip, bank: usize)
    requires
        old(chip).idle(),
        is_flash(old(chip)@.media),
        bank <= 1,
        bank == 1 ==> old(chip)@.media is Flash128K,
    ensures
        final(chip).idle(),
        final(chip)@ == (ChipView { bank: bank as nat, ..old(chip)@ }),
{
    if chip.bank() != bank {
        flash_unlock(chip);
        chip.write_cell(FLASH_CMD_ADDR_1, FLASH_SET_BANK);
        chip.write_cell(0, bank as u8);
    }
}

/// Chip state after the erase command for sector `sector` was accepted.
pub open spec fn erase_issued(s: ChipView, sector: nat) -> ChipView {
    ChipView {
        cells: erased_sector(s.cells, sector),
        bank: sector / 16,
        pending: s.latency,
        erases: bump(s.erases),
        ..s
    }
}

/// Erases flash sector `sector` and waits for the chip to report completion.
fn flash_erase_sector(chip: &mut SaveChip, sector: usize) -> (r: Result<(), Error>)
    requires
        old(chip).idle(),
        is_flash(old(chip)@.media),
        sector < sector_count(old(chip)@.media),
    ensures
        final(chip).idle(),
        r is Ok <==> completes_within(erase_issued(old(chip)@, sector as nat), poll_bound(old(chip)@.media)),
        r is Err ==> r == Err::<(), Error>(Error::Timeout),
        final(chip)@ == after_wait(erase_issued(old(chip)@, sector as nat), poll_bound(old(chip)@.media)),
{
    let bank = sector / 16;
    flash_select_bank(chip, bank);
    flash_unlock(chip);
    chip.write_cell(FLASH_CMD_ADDR_1, FLASH_ERASE_MODE);
    chip.write_cell(FLASH_CMD_ADDR_1, FLASH_UNLOCK_1);
    chip.write_cell(FLASH_CMD_ADDR_2, FLASH_UNLOCK_2);
    let window = (sector % 16) * FLASH_SECTOR_BYTES;
    assert((bank * 65536 + window) / 4096 == sector);
    chip.write_cell(window, FLASH_ERASE_SECTOR);
    let bound = chip.media().timeout_polls();
    wait_ready(chip, bound)
}


/// Chip state after the program command for byte `a` was accepted.
pub open spec fn program_issued(s: ChipView, a: nat, v: u8) -> ChipView {
    ChipView {
        cells: s.cells.update(a as int, programmed_byte(s.cells[a as int], v, s.worn)),
        bank: a / 65536,
        pending: s.latency,
        ..s
    }
}

/// Reads the flash byte at absolute address `a`.
fn flash_read_byte(chip: &mut SaveChip, a: usize) -> (r: u8)
    requires
        old(chip).idle(),
        is_flash(old(chip)@.media),
        a < capacity(old(chip)@.media),
    ensures
        final(chip).idle(),
        final(chip)@ == (ChipView { bank: a as nat / 65536, ..old(chip)@ }),
        r == old(chip)@.cells[a as int],
{
    flash_select_bank(chip, a / FLASH_BANK_BYTES);
    chip.read_cell(a % FLASH_BANK_BYTES)
}

/// Programs `v` into the flash byte at absolute address `a` and waits for the
/// chip to report completion.
fn flash_program_byte(chip: &mut SaveChip, a: usize, v: u8) -> (r: Result<(), Error>)
    requires
        old(chip).idle(),
        is_flash(old(chip)@.media),
        a < capacity(old(chip)@.media),
    ensures
        final(chip).idle(),
        r is Ok <==> completes_within(program_issued(old(chip)@, a as nat, v), poll_bound(old(chip)@.media)),
        r is Err ==> r == Err::<(), Error>(Error::Timeout),
        final(chip)@ == after_wait(program_issued(old(chip)@, a as nat, v), poll_bound(old(chip)@.media)),
{
    flash_select_bank(chip, a / FLASH_BANK_BYTES);
    flash_unlock(chip);
    chip.write_cell(FLASH_CMD_ADDR_1, FLASH_PROGRAM);
    chip.write_cell(a % FLASH_BANK_BYTES, v);
    let bound = chip.media().timeout_polls();
    wait_ready(chip, bound)
}


/// Whether `len` bytes starting at `offset` lie on medium `m`.
pub open spec fn in_bounds(m: MediaType, offset: nat, len: nat) -> bool {
    offset + len <= capacity(m)
}

/// Tests a byte range against the size of medium `m`, without overflow.
pub fn range_fits(m: MediaType, offset: usize, len: usize) -> (r: bool)
    ensures
        r == in_bounds(m, offset as nat, len as nat),
{
    let cap = m.len();
    offset <= cap && len <= cap - offset
}

/// Reads from a memory-mapped medium (SRAM or flash).
fn memory_read(chip: &mut SaveChip, offset: usize, buf: &mut [u8])
    requires
        old(chip).idle(),
        !is_eeprom(old(chip)@.media),
        in_bounds(old(chip)@.media, offset as nat, old(buf)@.len()),
    ensures
        final(chip).idle(),
        final(chip)@ == (ChipView { bank: final(chip)@.bank, ..old(chip)@ }),
        final(buf)@ == old(chip)@.cells.subrange(offset as int, offset + old(buf)@.len()),
{
    let ghost s0 = chip@;
    let n = buf.len();
    let flash = chip.media().is_flash();
    let mut i: usize = 0;
    while i < n
        invariant
            i <= n,
            n == buf@.len(),
            flash == is_flash(s0.media),
            !is_eeprom(s0.media),
            in_bounds(s0.media, offset as nat, n as nat),
            chip.idle(),
            chip@ == (ChipView { bank: chip@.bank, ..s0 }),
            forall|j: int| 0 <= j < i ==> buf@[j] == s0.cells[offset + j],
        decreases n - i,
    {
        let b = if flash {
            flash_read_byte(chip, offset + i)
        } else {
            chip.read_cell(offset + i)
        };
        buf[i] = b;
        i = i + 1;
    }
    assert(buf@ == s0.cells.subrange(offset as int, offset + n));
}

/// Reads from a serial EEPROM: one read request per word touched, each
/// followed by a bounded completion wait.
fn eeprom_read(chip: &mut SaveChip, offset: usize, buf: &mut [u8]) -> (r: Result<(), Error>)
    requires
        old(chip).idle(),
        is_eeprom(old(chip)@.media),
        in_bounds(old(chip)@.media, offset as nat, old(buf)@.len()),
    ensures
        final(chip).idle(),
        settled(old(chip)@, final(chip)@),
        final(chip)@.cells == old(chip)@.cells,
        final(chip)@.erases == old(chip)@.erases,
        final(buf)@.len() == old(buf)@.len(),
        timely(old(chip)@) ==> r is Ok && final(buf)@ == old(chip)@.cells.subrange(
            offset as int,
            offset + old(buf)@.len(),
        ),
        !timely(old(chip)@) && old(buf)@.len() > 0 ==> r == Err::<(), Error>(Error::Timeout)
            && final(chip)@.polls == sat_add(old(chip)@.polls, poll_bound(old(chip)@.media)),
        old(buf)@.len() == 0 ==> r is Ok,
{
    let ghost s0 = chip@;
    let n = buf.len();
    let bound = chip.media().timeout_polls();
    let mut i: usize = 0;
    while i < n
        invariant
            i <= n,
            n == buf@.len(),
            bound == poll_bound(s0.media),
            is_eeprom(s0.media),
            s0 == old(chip)@,
            n == old(buf)@.len(),
            in_bounds(s0.media, offset as nat, n as nat),
            chip.idle(),
            settled(s0, chip@),
            chip@.cells == s0.cells,
            chip@.erases == s0.erases,
            timely(s0) || i == 0,
            i == 0 ==> chip@.polls == s0.polls,
            forall|j: int| 0 <= j < i ==> buf@[j] == s0.cells[offset + j],
        decreases n - i,
    {
        let a = offset + i;
        let word = a / 8;
        if i == 0 || a % 8 == 0 {
            chip.eeprom_request_read(word);
            if wait_ready(chip, bound).is_err() {
                return Err(Error::Timeout);
            }
        }
        buf[i] = chip.eeprom_fetch(word, a % 8);
        i = i + 1;
    }
    assert(buf@ == s0.cells.subrange(offset as int, offset + n));
    Ok(())
}

/// Copies `buf.len()` bytes starting at `offset` out of the medium.
pub fn raw_read(chip: &mut SaveChip, offset: usize, buf: &mut [u8]) -> (r: Result<(), Error>)
    requires
        old(chip).idle(),
    ensures
        final(chip).idle(),
        settled(old(chip)@, final(chip)@),
        final(chip)@.cells == old(chip)@.cells,
        final(chip)@.erases == old(chip)@.erases,
        final(buf)@.len() == old(buf)@.len(),
        !in_bounds(old(chip)@.media, offset as nat, old(buf)@.len()) ==> r == Err::<(), Error>(
            Error::OutOfBounds,
        ) && final(chip)@ == old(chip)@ && final(buf)@ == old(buf)@,
        in_bounds(old(chip)@.media, offset as nat, old(buf)@.len()) && (old(buf)@.len() == 0
            || !is_eeprom(old(chip)@.media) || timely(old(chip)@)) ==> r is Ok && final(buf)@
            == old(chip)@.cells.subrange(offset as int, offset + old(buf)@.len()),
        in_bounds(old(chip)@.media, offset as nat, old(buf)@.len()) && old(buf)@.len() > 0
            && is_eeprom(old(chip)@.media) && !timely(old(chip)@) ==> r == Err::<(), Error>(
            Error::Timeout,
        ) && final(chip)@.polls == sat_add(old(chip)@.polls, poll_bound(old(chip)@.media)),
{
    let m = chip.media();
    if !range_fits(m, offset, buf.len()) {
        return Err(Error::OutOfBounds);
    }
    if m.is_eeprom() {
        eeprom_read(chip, offset, buf)
    } else {
        memory_read(chip, offset, buf);
        Ok(())
    }
}


/// `b` differs from `a` at most inside `lo..hi`.
pub open spec fn unchanged_outside(a: Seq<u8>, b: Seq<u8>, lo: int, hi: int) -> bool {
    &&& b.len() == a.len()
    &&& forall|i: int| 0 <= i < a.len() && !(lo <= i < hi) ==> #[trigger] b[i] == a[i]
}

/// Cells after each byte of `data` was programmed at `offset`: flash only
/// clears bits (and worn flash keeps what it held), other media store the
/// bytes as given.
pub open spec fn programmed_cells(s: ChipView, offset: nat, data: Seq<u8>) -> Seq<u8> {
    Seq::new(
        s.cells.len(),
        |i: int|
            if offset <= i < offset + data.len() {
                if is_flash(s.media) {
                    programmed_byte(s.cells[i], data[i - offset], s.worn)
                } else {
                    data[i - offset]
                }
            } else {
                s.cells[i]
            },
    )
}

/// Stores `data` at `offset` into SRAM.
fn sram_program(chip: &mut SaveChip, offset: usize, data: &[u8])
    requires
        old(chip).idle(),
        old(chip)@.media is Sram,
        in_bounds(old(chip)@.media, offset as nat, data@.len()),
    ensures
        final(chip).idle(),
        final(chip)@ == (ChipView { cells: programmed_cells(old(chip)@, offset as nat, data@), ..old(chip)@ }),
{
    let ghost s0 = chip@;
    let n = data.len();
    let mut i: usize = 0;
    while i < n
        invariant
            i <= n,
            n == data@.len(),
            s0.media is Sram,
            in_bounds(s0.media, offset as nat, n as nat),
            chip.idle(),
            chip@ == (ChipView { cells: chip@.cells, ..s0 }),
            chip@.cells.len() == s0.cells.len(),
            forall|j: int| 0 <= j < s0.cells.len() ==> chip@.cells[j] == if offset <= j < offset + i {
                data@[j - offset]
            } else {
                s0.cells[j]
            },
        decreases n - i,
    {
        chip.write_cell(offset + i, data[i]);
        i = i + 1;
    }
    assert(chip@.cells == programmed_cells(s0, offset as nat, data@));
}

/// Programs `data` at `offset` into flash, one byte per program command,
/// then reads every byte back.
fn flash_program(chip: &mut SaveChip, offset: usize, data: &[u8]) -> (r: Result<(), Error>)
    requires
        old(chip).idle(),
        is_flash(old(chip)@.media),
        in_bounds(old(chip)@.media, offset as nat, data@.len()),
    ensures
        final(chip).idle(),
        settled(old(chip)@, final(chip)@),
        timely(old(chip)@) || data@.len() == 0 ==> final(chip)@.cells == programmed_cells(
            old(chip)@,
            offset as nat,
            data@,
        ) && final(chip)@.erases == old(chip)@.erases && (r is Ok <==> programmed_cells(
            old(chip)@,
            offset as nat,
            data@,
        ).subrange(offset as int, offset + data@.len()) == data@) && (r is Err ==> r == Err::<
            (),
            Error,
        >(Error::VerifyFailed)),
        !timely(old(chip)@) && data@.len() > 0 ==> r == Err::<(), Error>(Error::Timeout)
            && final(chip)@.polls == sat_add(old(chip)@.polls, poll_bound(old(chip)@.media)),
        unchanged_outside(old(chip)@.cells, final(chip)@.cells, offset as int, offset + data@.len()),
{
    let ghost s0 = chip@;
    let n = data.len();
    let mut i: usize = 0;
    while i < n
        invariant
            i <= n,
            n == data@.len(),
            s0 == old(chip)@,
            is_flash(s0.media),
            in_bounds(s0.media, offset as nat, n as nat),
            chip.idle(),
            settled(s0, chip@),
            chip@.erases == s0.erases,
            timely(s0) || i == 0,
            i == 0 ==> chip@.polls == s0.polls,
            chip@.cells.len() == s0.cells.len(),
            forall|j: int| 0 <= j < s0.cells.len() && offset <= j < offset + i ==> #[trigger] chip@.cells[j] ==
                programmed_byte(s0.cells[j], data@[j - offset], s0.worn),
            forall|j: int| 0 <= j < s0.cells.len() && !(offset <= j < offset + i) ==> #[trigger] chip@.cells[j] == s0.cells[j],
        decreases n - i,
    {
        if flash_program_byte(chip, offset + i, data[i]).is_err() {
            assert(unchanged_outside(s0.cells, chip@.cells, offset as int, offset + n));
            return Err(Error::Timeout);
        }
        i = i + 1;
    }
    let ghost c1 = chip@.cells;
    assert(c1 == programmed_cells(s0, offset as nat, data@));
    let mut k: usize = 0;
    while k < n
        invariant
            k <= n,
            n == data@.len(),
            s0 == old(chip)@,
            is_flash(s0.media),
            in_bounds(s0.media, offset as nat, n as nat),
            chip.idle(),
            settled(s0, chip@),
            chip@.erases == s0.erases,
            chip@.cells == c1,
            timely(s0) || n == 0,
            c1 == programmed_cells(s0, offset as nat, data@),
            forall|j: int| 0 <= j < k ==> c1[offset + j] == data@[j],
        decreases n - k,
    {
        if flash_read_byte(chip, offset + k) != data[k] {
            return Err(Error::VerifyFailed);
        }
        k = k + 1;
    }
    assert(c1.subrange(offset as int, offset + n) == data@);
    Ok(())
}


/// Writes `data` at `offset` into a serial EEPROM: each word touched is read,
/// patched with the bytes of `data` that fall into it, and written back, every
/// transfer followed by a bounded completion wait.
fn eeprom_program(chip: &mut SaveChip, offset: usize, data: &[u8]) -> (r: Result<(), Error>)
    requires
        old(chip).idle(),
        is_eeprom(old(chip)@.media),
        in_bounds(old(chip)@.media, offset as nat, data@.len()),
    ensures
        final(chip).idle(),
        settled(old(chip)@, final(chip)@),
        timely(old(chip)@) || data@.len() == 0 ==> r is Ok && final(chip)@.cells
            == programmed_cells(old(chip)@, offset as nat, data@) && final(chip)@.erases
            == old(chip)@.erases,
        !timely(old(chip)@) && data@.len() > 0 ==> r == Err::<(), Error>(Error::Timeout)
            && final(chip)@.polls == sat_add(old(chip)@.polls, poll_bound(old(chip)@.media)),
        unchanged_outside(old(chip)@.cells, final(chip)@.cells, offset as int, offset + data@.len()),
{
    let ghost s0 = chip@;
    let n = data.len();
    if n == 0 {
        assert(chip@.cells == programmed_cells(s0, offset as nat, data@));
        return Ok(());
    }
    let bound = chip.media().timeout_polls();
    let end = offset + n;
    let first = offset / 8;
    let last = (end - 1) / 8 + 1;
    let mut w: usize = first;
    while w < last
        invariant
            first <= w <= last,
            first == offset / 8,
            last == (end - 1) / 8 + 1,
            end == offset + n,
            n > 0,
            n == data@.len(),
            bound == poll_bound(s0.media),
            s0 == old(chip)@,
            is_eeprom(s0.media),
            in_bounds(s0.media, offset as nat, n as nat),
            chip.idle(),
            settled(s0, chip@),
            chip@.erases == s0.erases,
            timely(s0) || w == first,
            w == first ==> chip@.polls == s0.polls,
            chip@.cells.len() == s0.cells.len(),
            forall|a: int| 0 <= a < s0.cells.len() && offset <= a < end && a < w * 8 ==> #[trigger] chip@.cells[a] == data@[a - offset],
            forall|a: int| 0 <= a < s0.cells.len() && !(offset <= a < end && a < w * 8) ==> #[trigger] chip@.cells[a] == s0.cells[a],
        decreases last - w,
    {
        chip.eeprom_request_read(w);
        if wait_ready(chip, bound).is_err() {
            assert(unchanged_outside(s0.cells, chip@.cells, offset as int, end as int));
            return Err(Error::Timeout);
        }
        let mut word: Vec<u8> = Vec::new();
        let mut j: usize = 0;
        while j < 8
            invariant
                j <= 8,
                word@.len() == j,
                w < last,
                first <= w,
                end == offset + n,
                n == data@.len(),
                chip.idle(),
                is_eeprom(chip@.media),
                w * 8 + 8 <= chip@.cells.len(),
                chip@.cells.len() == capacity(chip@.media),
                forall|k: int| 0 <= k < j ==> word@[k] == if offset <= w * 8 + k < end {
                    data@[w * 8 + k - offset]
                } else {
                    chip@.cells[w * 8 + k]
                },
            decreases 8 - j,
        {
            let a = w * 8 + j;
            let b = if offset <= a && a < end {
                data[a - offset]
            } else {
                chip.eeprom_fetch(w, j)
            };
            word.push(b);
            j = j + 1;
        }
        let ghost before = chip@.cells;
        chip.eeprom_request_write(w, word.as_slice());
        assert forall|a: int| 0 <= a < s0.cells.len() implies chip@.cells[a] == if offset <= a < end
            && a < (w + 1) * 8 {
            data@[a - offset]
        } else {
            s0.cells[a]
        } by {
            if w * 8 <= a < w * 8 + 8 {
                assert(chip@.cells[a] == word@[a - w * 8]);
            } else {
                assert(chip@.cells[a] == before[a]);
            }
        }
        if wait_ready(chip, bound).is_err() {
            assert(unchanged_outside(s0.cells, chip@.cells, offset as int, end as int));
            return Err(Error::Timeout);
        }
        w = w + 1;
    }
    assert(chip@.cells == programmed_cells(s0, offset as nat, data@));
    Ok(())
}


/// Programs `data` at `offset`: a store for SRAM, program commands followed by
/// a read-back pass for flash, word transfers for EEPROM. Flash bytes must
/// have been erased beforehand for the read-back to match.
pub fn raw_program(chip: &mut SaveChip, offset: usize, data: &[u8]) -> (r: Result<(), Error>)
    requires
        old(chip).idle(),
    ensures
        final(chip).idle(),
        settled(old(chip)@, final(chip)@),
        !in_bounds(old(chip)@.media, offset as nat, data@.len()) ==> r == Err::<(), Error>(
            Error::OutOfBounds,
        ) && final(chip)@ == old(chip)@,
        in_bounds(old(chip)@.media, offset as nat, data@.len()) && (data@.len() == 0
            || old(chip)@.media is Sram || timely(old(chip)@)) ==> final(chip)@.cells
            == programmed_cells(old(chip)@, offset as nat, data@) && final(chip)@.erases
            == old(chip)@.erases && (r is Ok <==> programmed_cells(
            old(chip)@,
            offset as nat,
            data@,
        ).subrange(offset as int, offset + data@.len()) == data@) && (r is Err ==> r == Err::<
            (),
            Error,
        >(Error::VerifyFailed)),
        in_bounds(old(chip)@.media, offset as nat, data@.len()) && data@.len() > 0
            && !(old(chip)@.media is Sram) && !timely(old(chip)@) ==> r == Err::<(), Error>(
            Error::Timeout,
        ) && final(chip)@.polls == sat_add(old(chip)@.polls, poll_bound(old(chip)@.media)),
        unchanged_outside(old(chip)@.cells, final(chip)@.cells, offset as int, offset + data@.len()),
{
    let m = chip.media();
    if !range_fits(m, offset, data.len()) {
        return Err(Error::OutOfBounds);
    }
    match m {
        MediaType::Sram => {
            sram_program(chip, offset, data);
            assert(programmed_cells(old(chip)@, offset as nat, data@).subrange(
                offset as int,
                offset + data@.len(),
            ) == data@);
            Ok(())
        },
        MediaType::Flash64K | MediaType::Flash128K => flash_program(chip, offset, data),
        MediaType::Eeprom512 | MediaType::Eeprom8K => {
            let r = eeprom_program(chip, offset, data);
            assert(programmed_cells(old(chip)@, offset as nat, data@).subrange(
                offset as int,
                offset + data@.len(),
            ) == data@);
            r
        },
    }
}

/// Erases sector `sector`: a no-op for SRAM and EEPROM; for flash, the
/// unlock and sector-erase sequence followed by a bounded completion wait.
pub fn raw_erase_sector(chip: &mut SaveChip, sector: usize) -> (r: Result<(), Error>)
    requires
        old(chip).idle(),
    ensures
        final(chip).idle(),
        settled(old(chip)@, final(chip)@),
        !is_flash(old(chip)@.media) ==> r is Ok && final(chip)@ == old(chip)@,
        is_flash(old(chip)@.media) && sector >= sector_count(old(chip)@.media) ==> r == Err::<
            (),
            Error,
        >(Error::OutOfBounds) && final(chip)@ == old(chip)@,
        is_flash(old(chip)@.media) && sector < sector_count(old(chip)@.media) ==> final(chip)@.cells
            == erased_sector(old(chip)@.cells, sector as nat) && final(chip)@.erases == bump(
            old(chip)@.erases,
        ) && (r is Ok <==> timely(old(chip)@)) && (r is Err ==> r == Err::<(), Error>(
            Error::Timeout,
        )),
        is_flash(old(chip)@.media) && sector < sector_count(old(chip)@.media) && !timely(old(chip)@)
            ==> final(chip)@.polls == sat_add(old(chip)@.polls, poll_bound(old(chip)@.media)),
{
    let m = chip.media();
    if !m.is_flash() {
        return Ok(());
    }
    let count = m.len() / FLASH_SECTOR_BYTES;
    if sector >= count {
        return Err(Error::OutOfBounds);
    }
    flash_erase_sector(chip, sector)
}

} // verus!

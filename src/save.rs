//! The save-media facade: configuration once, then uniform read, write and
//! prepare-for-write over the configured medium.

use vstd::prelude::*;

use crate::chip::SaveChip;
use crate::erase::{
    coherent, erases_needed, marks_after, marks_cleared, prepared_cells, range_valid,
    EraseSession,
};
use crate::error::Error;
use crate::media::{capacity, is_eeprom, poll_bound, sector_bytes, sector_count, MediaInfo, MediaType};
use crate::protocol::{
    in_bounds, programmed_cells, range_fits, raw_program, raw_read, settled, timely,
    unchanged_outside,
};
use crate::timeout::sat_add;

verus! {

/// The process-wide choice of save medium, made once at start-up and handed
/// to every `SaveAccess` built from it.
pub struct SaveConfig {
    media: Option<MediaType>,
}

impl SaveConfig {
    /// The medium selected, if any.
    pub closed spec fn selected(&self) -> Option<MediaType> {
        self.media
    }

    /// A configuration with no medium selected.
    pub fn new() -> (r: SaveConfig)
        ensures
            r.selected() is None,
    {
        SaveConfig { media: None }
    }

    /// Selects the medium the cartridge declares. The first selection stands:
    /// a later one is ignored, since the cartridge's medium never changes.
    pub fn select(&mut self, media: MediaType)
        ensures
            final(self).selected() == if old(self).selected() is None {
                Some(media)
            } else {
                old(self).selected()
            },
    {
        if self.media.is_none() {
            self.media = Some(media);
        }
    }

    /// The medium selected, if any.
    pub fn media(&self) -> (r: Option<MediaType>)
        ensures
            r == self.selected(),
    {
        self.media
    }
}

/// Uniform byte-addressed access to the configured save medium.
pub struct SaveAccess {
    media: MediaType,
    session: EraseSession,
}

impl SaveAccess {
    /// The configured medium.
    pub closed spec fn media_type(&self) -> MediaType {
        self.media
    }

    /// Sectors marked erased in the current write pass.
    pub closed spec fn marks(&self) -> Seq<bool> {
        self.session@
    }

    pub open spec fn wf(&self) -> bool {
        self.marks().len() == sector_count(self.media_type())
    }

    /// A handle on the medium `config` selected.
    pub fn new(config: &SaveConfig) -> (r: Result<SaveAccess, Error>)
        ensures
            config.selected() is None ==> r is Err && r->Err_0 == Error::Unconfigured,
            config.selected() is Some ==> r is Ok && r->Ok_0.wf() && r->Ok_0.media_type()
                == config.selected()->Some_0 && r->Ok_0.marks() == Seq::new(
                sector_count(config.selected()->Some_0),
                |s: int| false,
            ),
    {
        match config.media() {
            None => Err(Error::Unconfigured),
            Some(media) => Ok(SaveAccess { media, session: EraseSession::new(media) }),
        }
    }

    /// Total addressable bytes.
    pub fn len(&self) -> (r: usize)
        ensures
            r == capacity(self.media_type()),
    {
        self.media.len()
    }

    /// Type, size and sector size of the medium.
    pub fn media_info(&self) -> (r: MediaInfo)
        ensures
            r.media_type == self.media_type(),
            r.total_size_bytes == capacity(self.media_type()),
            r.sector_size_bytes == sector_bytes(self.media_type()),
    {
        self.media.info()
    }

    /// Erases what `start..end` needs before it can be written: every flash
    /// sector covering the range that was not erased earlier in this write
    /// pass. Nothing to do for SRAM and EEPROM. A range that starts after its
    /// end or reaches past the medium is `OutOfBounds`.
    pub fn prepare_write(&mut self, chip: &mut SaveChip, start: usize, end: usize) -> (r: Result<
        (),
        Error,
    >)
        requires
            old(self).wf(),
            old(chip).idle(),
            old(chip)@.media == old(self).media_type(),
        ensures
            final(self).wf(),
            final(self).media_type() == old(self).media_type(),
            final(chip).idle(),
            settled(old(chip)@, final(chip)@),
            !range_valid(old(chip)@.media, start as nat, end as nat) ==> r == Err::<(), Error>(
                Error::OutOfBounds,
            ) && final(chip)@ == old(chip)@ && final(self).marks() == old(self).marks(),
            range_valid(old(chip)@.media, start as nat, end as nat) && old(chip)@.held ==> r
                == Err::<(), Error>(Error::Busy) && final(chip)@ == old(chip)@ && final(self).marks()
                == old(self).marks(),
            range_valid(old(chip)@.media, start as nat, end as nat) && !old(chip)@.held && (timely(old(chip)@) || erases_needed(old(chip)@.media, old(self).marks(), start as nat, end as nat) == 0)
                ==> r is Ok && final(self).marks() == marks_after(
                old(chip)@.media,
                old(self).marks(),
                start as nat,
                end as nat,
            ) && final(chip)@.cells == prepared_cells(
                old(chip)@.media,
                old(chip)@.cells,
                old(self).marks(),
                start as nat,
                end as nat,
            ) && final(chip)@.erases == sat_add(
                old(chip)@.erases,
                erases_needed(old(chip)@.media, old(self).marks(), start as nat, end as nat),
            ),
            range_valid(old(chip)@.media, start as nat, end as nat) && !old(chip)@.held && !timely(old(chip)@) && erases_needed(old(chip)@.media, old(self).marks(), start as nat, end as nat) > 0
                ==> r == Err::<(), Error>(Error::Timeout),
            coherent(old(self).marks(), old(chip)@.cells) ==> coherent(
                final(self).marks(),
                final(chip)@.cells,
            ),
    {
        let cap = self.media.len();
        if !(start <= end && end <= cap) {
            return Err(Error::OutOfBounds);
        }
        if chip.is_held() {
            return Err(Error::Busy);
        }
        self.session.prepare(chip, start, end)
    }

    /// Writes `data` at `offset`. On flash the bytes are read back, and a
    /// mismatch (bytes not erased beforehand, or worn cells) is reported.
    pub fn write(&mut self, chip: &mut SaveChip, offset: usize, data: &[u8]) -> (r: Result<
        (),
        Error,
    >)
        requires
            old(self).wf(),
            old(chip).idle(),
            old(chip)@.media == old(self).media_type(),
        ensures
            final(self).wf(),
            final(self).media_type() == old(self).media_type(),
            final(chip).idle(),
            settled(old(chip)@, final(chip)@),
            !in_bounds(old(chip)@.media, offset as nat, data@.len()) ==> r == Err::<(), Error>(
                Error::OutOfBounds,
            ) && final(chip)@ == old(chip)@ && final(self).marks() == old(self).marks(),
            in_bounds(old(chip)@.media, offset as nat, data@.len()) && old(chip)@.held ==> r
                == Err::<(), Error>(Error::Busy) && final(chip)@ == old(chip)@ && final(self).marks()
                == old(self).marks(),
            in_bounds(old(chip)@.media, offset as nat, data@.len()) && !old(chip)@.held ==> final(self).marks() == marks_cleared(old(self).marks(), offset as nat, (offset + data@.len()) as nat)
                && unchanged_outside(
                old(chip)@.cells,
                final(chip)@.cells,
                offset as int,
                offset + data@.len(),
            ),
            in_bounds(old(chip)@.media, offset as nat, data@.len()) && !old(chip)@.held && (
            data@.len() == 0 || old(chip)@.media is Sram || timely(old(chip)@)) ==> final(chip)@.cells == programmed_cells(old(chip)@, offset as nat, data@) && final(chip)@.erases
                == old(chip)@.erases && (r is Ok <==> programmed_cells(
                old(chip)@,
                offset as nat,
                data@,
            ).subrange(offset as int, offset + data@.len()) == data@) && (r is Err ==> r == Err::<
                (),
                Error,
            >(Error::VerifyFailed)),
            in_bounds(old(chip)@.media, offset as nat, data@.len()) && !old(chip)@.held
                && data@.len() > 0 && !(old(chip)@.media is Sram) && !timely(old(chip)@) ==> r
                == Err::<(), Error>(Error::Timeout) && final(chip)@.polls == sat_add(
                old(chip)@.polls,
                poll_bound(old(chip)@.media),
            ),
            coherent(old(self).marks(), old(chip)@.cells) ==> coherent(
                final(self).marks(),
                final(chip)@.cells,
            ),
    {
        if !range_fits(self.media, offset, data.len()) {
            return Err(Error::OutOfBounds);
        }
        if chip.is_held() {
            return Err(Error::Busy);
        }
        let end = offset + data.len();
        self.session.forget(offset, end);
        raw_program(chip, offset, data)
    }

    /// Reads `buf.len()` bytes starting at `offset`.
    pub fn read(&self, chip: &mut SaveChip, offset: usize, buf: &mut [u8]) -> (r: Result<
        (),
        Error,
    >)
        requires
            self.wf(),
            old(chip).idle(),
            old(chip)@.media == self.media_type(),
        ensures
            final(chip).idle(),
            settled(old(chip)@, final(chip)@),
            final(chip)@.cells == old(chip)@.cells,
            final(chip)@.erases == old(chip)@.erases,
            final(buf)@.len() == old(buf)@.len(),
            !in_bounds(old(chip)@.media, offset as nat, old(buf)@.len()) ==> r == Err::<(), Error>(
                Error::OutOfBounds,
            ) && final(chip)@ == old(chip)@ && final(buf)@ == old(buf)@,
            in_bounds(old(chip)@.media, offset as nat, old(buf)@.len()) && old(chip)@.held ==> r
                == Err::<(), Error>(Error::Busy) && final(chip)@ == old(chip)@ && final(buf)@ == old(buf)@,
            in_bounds(old(chip)@.media, offset as nat, old(buf)@.len()) && !old(chip)@.held && (old(buf)@.len() == 0 || !is_eeprom(old(chip)@.media) || timely(old(chip)@)) ==> r is Ok
                && final(buf)@ == old(chip)@.cells.subrange(offset as int, offset + old(buf)@.len()),
            in_bounds(old(chip)@.media, offset as nat, old(buf)@.len()) && !old(chip)@.held && old(buf)@.len() > 0 && is_eeprom(old(chip)@.media) && !timely(old(chip)@) ==> r == Err::<
                (),
                Error,
            >(Error::Timeout) && final(chip)@.polls == sat_add(
                old(chip)@.polls,
                poll_bound(old(chip)@.media),
            ),
    {
        if !range_fits(self.media, offset, buf.len()) {
            return Err(Error::OutOfBounds);
        }
        if chip.is_held() {
            return Err(Error::Busy);
        }
        raw_read(chip, offset, buf)
    }
}

} // verus!

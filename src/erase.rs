//! The erase coordinator: which sectors a write range needs erased, and which
//! were already erased in the current write pass.

use vstd::prelude::*;

use crate::chip::{SaveChip, ERASED_BYTE};
use crate::error::Error;
use crate::media::{capacity, is_flash, sector_count, MediaType, FLASH_SECTOR_BYTES};
use crate::protocol::{raw_erase_sector, settled, timely};
use crate::timeout::sat_add;

verus! {

/// Whether a byte range `start..end` is a range of medium `m`.
pub open spec fn range_valid(m: MediaType, start: nat, end: nat) -> bool {
    start <= end && end <= capacity(m)
}

/// Whether sector `s` holds a byte of the nonempty range `start..end`.
pub open spec fn covers(start: nat, end: nat, s: nat) -> bool {
    start < end && start / 4096 <= s <= (end - 1) / 4096
}

/// Number of sectors in `lo..hi` that are not marked erased.
pub open spec fn unmarked_count(marks: Seq<bool>, lo: nat, hi: nat) -> nat
    decreases hi - lo,
{
    if hi <= lo {
        0
    } else {
        unmarked_count(marks, lo, (hi - 1) as nat) + if marks[hi - 1] {
            0nat
        } else {
            1nat
        }
    }
}

/// Counting over a longer range never gives fewer unmarked sectors.
proof fn lemma_unmarked_mono(marks: Seq<bool>, lo: nat, a: nat, b: nat)
    requires
        lo <= a <= b,
    ensures
        unmarked_count(marks, lo, a) <= unmarked_count(marks, lo, b),
    decreases b - a,
{
    if a < b {
        lemma_unmarked_mono(marks, lo, a, (b - 1) as nat);
    }
}

/// Number of sectors an erase pass over `start..end` erases.
pub open spec fn erases_needed(m: MediaType, marks: Seq<bool>, start: nat, end: nat) -> nat {
    if is_flash(m) && start < end {
        unmarked_count(marks, start / 4096, ((end - 1) / 4096 + 1) as nat)
    } else {
        0
    }
}

/// Marks after an erase pass over `start..end`.
pub open spec fn marks_after(m: MediaType, marks: Seq<bool>, start: nat, end: nat) -> Seq<bool> {
    Seq::new(marks.len(), |s: int| marks[s] || (is_flash(m) && covers(start, end, s as nat)))
}

/// Marks after the sectors holding bytes of `start..end` were written.
pub open spec fn marks_cleared(marks: Seq<bool>, start: nat, end: nat) -> Seq<bool> {
    Seq::new(marks.len(), |s: int| marks[s] && !covers(start, end, s as nat))
}

/// Cells after an erase pass over `start..end`: each covering sector that was
/// not marked is set to the erased value.
pub open spec fn prepared_cells(
    m: MediaType,
    cells: Seq<u8>,
    marks: Seq<bool>,
    start: nat,
    end: nat,
) -> Seq<u8> {
    Seq::new(
        cells.len(),
        |i: int|
            if is_flash(m) && covers(start, end, (i / 4096) as nat) && !marks[i / 4096] {
                ERASED_BYTE
            } else {
                cells[i]
            },
    )
}

/// Every sector marked erased does hold only erased bytes.
pub open spec fn coherent(marks: Seq<bool>, cells: Seq<u8>) -> bool {
    forall|i: int| 0 <= i < cells.len() && 0 <= i / 4096 < marks.len() && #[trigger] marks[i / 4096]
        ==> cells[i] == ERASED_BYTE
}

/// The flash sectors already erased in the current write pass, so that no
/// sector is erased twice while it still holds nothing but erased bytes.
pub struct EraseSession {
    erased: Vec<bool>,
}

impl View for EraseSession {
    type V = Seq<bool>;

    closed spec fn view(&self) -> Seq<bool> {
        self.erased@
    }
}

impl EraseSession {
    /// A session with no sector marked.
    pub fn new(media: MediaType) -> (r: EraseSession)
        ensures
            r@ == Seq::new(sector_count(media), |s: int| false),
    {
        let n = if media.is_flash() {
            media.len() / FLASH_SECTOR_BYTES
        } else {
            0
        };
        let mut erased: Vec<bool> = Vec::new();
        while erased.len() < n
            invariant
                erased.len() <= n,
                forall|s: int| 0 <= s < erased.len() ==> !erased@[s],
            decreases n - erased.len(),
        {
            erased.push(false);
        }
        assert(erased@ == Seq::new(sector_count(media), |s: int| false));
        EraseSession { erased }
    }

    /// Whether sector `s` is marked erased.
    pub fn is_erased(&self, s: usize) -> (r: bool)
        ensures
            r == (s < self@.len() && self@[s as int]),
    {
        s < self.erased.len() && self.erased[s]
    }

    /// Unmarks every sector that holds a byte of `start..end`.
    pub fn forget(&mut self, start: usize, end: usize)
        ensures
            final(self)@ == marks_cleared(old(self)@, start as nat, end as nat),
    {
        let ghost m0 = self@;
        let mut s: usize = 0;
        while s < self.erased.len()
            invariant
                s <= self.erased@.len(),
                self.erased@.len() == m0.len(),
                forall|x: int| 0 <= x < s ==> #[trigger] self.erased@[x] == (m0[x] && !covers(start as nat, end as nat, x as nat)),
                forall|x: int| s <= x < m0.len() ==> #[trigger] self.erased@[x] == m0[x],
            decreases self.erased@.len() - s,
        {
            if start < end && start / FLASH_SECTOR_BYTES <= s && s <= (end - 1) / FLASH_SECTOR_BYTES {
                self.erased[s] = false;
            }
            s = s + 1;
        }
        assert(self@ =~= marks_cleared(m0, start as nat, end as nat));
    }

    /// Erases, in ascending order, every sector that covers `start..end` and is
    /// not yet marked, marking each once its erase succeeded. The first failed
    /// erase ends the pass; sectors erased before it stay erased and marked.
    pub fn prepare(&mut self, chip: &mut SaveChip, start: usize, end: usize) -> (r: Result<(), Error>)
        requires
            old(chip).idle(),
            old(self)@.len() == sector_count(old(chip)@.media),
        ensures
            final(chip).idle(),
            settled(old(chip)@, final(chip)@),
            final(self)@.len() == old(self)@.len(),
            !range_valid(old(chip)@.media, start as nat, end as nat) ==> r == Err::<(), Error>(
                Error::OutOfBounds,
            ) && final(chip)@ == old(chip)@ && final(self)@ == old(self)@,
            range_valid(old(chip)@.media, start as nat, end as nat) && (timely(old(chip)@)
                || erases_needed(old(chip)@.media, old(self)@, start as nat, end as nat) == 0)
                ==> r is Ok && final(self)@ == marks_after(
                old(chip)@.media,
                old(self)@,
                start as nat,
                end as nat,
            ) && final(chip)@.cells == prepared_cells(
                old(chip)@.media,
                old(chip)@.cells,
                old(self)@,
                start as nat,
                end as nat,
            ) && final(chip)@.erases == sat_add(
                old(chip)@.erases,
                erases_needed(old(chip)@.media, old(self)@, start as nat, end as nat),
            ),
            range_valid(old(chip)@.media, start as nat, end as nat) && !timely(old(chip)@)
                && erases_needed(old(chip)@.media, old(self)@, start as nat, end as nat) > 0
                ==> r == Err::<(), Error>(Error::Timeout),
            coherent(old(self)@, old(chip)@.cells) ==> coherent(final(self)@, final(chip)@.cells),
    {
        let m = chip.media();
        let cap = m.len();
        if !(start <= end && end <= cap) {
            return Err(Error::OutOfBounds);
        }
        let ghost s0 = chip@;
        let ghost m0 = self@;
        if !m.is_flash() || start == end {
            assert(self@ =~= marks_after(m, m0, start as nat, end as nat));
            assert(chip@.cells =~= prepared_cells(m, s0.cells, m0, start as nat, end as nat));
            return Ok(());
        }
        let first = start / FLASH_SECTOR_BYTES;
        let last = (end - 1) / FLASH_SECTOR_BYTES + 1;
        let mut s: usize = first;
        while s < last
            invariant
                first <= s <= last,
                first == start / 4096,
                last == (end - 1) / 4096 + 1,
                start < end <= capacity(m),
                is_flash(m),
                m == s0.media,
                s0 == old(chip)@,
                m0 == old(self)@,
                m0.len() == sector_count(m),
                chip.idle(),
                settled(s0, chip@),
                chip@.cells.len() == s0.cells.len(),
                self@.len() == m0.len(),
                timely(s0) || unmarked_count(m0, first as nat, s as nat) == 0,
                chip@.erases == sat_add(s0.erases, unmarked_count(m0, first as nat, s as nat)),
                forall|x: int| 0 <= x < m0.len() ==> #[trigger] self@[x] == (m0[x] || (first <= x < s)),
                forall|i: int| 0 <= i < s0.cells.len() && first <= i / 4096 < s && !m0[i / 4096] ==> #[trigger] chip@.cells[i] == ERASED_BYTE,
                forall|i: int| 0 <= i < s0.cells.len() && !(first <= i / 4096 < s && !m0[i / 4096]) ==> #[trigger] chip@.cells[i] == s0.cells[i],
                coherent(m0, s0.cells) ==> coherent(self@, chip@.cells),
            decreases last - s,
        {
            if !self.erased[s] {
                let r = raw_erase_sector(chip, s);
                proof {
                    lemma_unmarked_mono(m0, first as nat, (s + 1) as nat, last as nat);
                }
                if r.is_err() {
                    return r;
                }
                self.erased[s] = true;
            }
            s = s + 1;
        }
        assert(self@ =~= marks_after(m, m0, start as nat, end as nat));
        assert(chip@.cells =~= prepared_cells(m, s0.cells, m0, start as nat, end as nat));
        Ok(())
    }
}

} // verus!

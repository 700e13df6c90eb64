//! Properties that relate several save operations.

use vstd::prelude::*;

use crate::chip::{chip_wf, programmed_byte, ChipView, ERASED_BYTE};
use crate::erase::{
    coherent, covers, erases_needed, marks_after, prepared_cells, range_valid, unmarked_count,
};
use crate::media::{capacity, is_flash, sector_count, MediaType};
use crate::protocol::{in_bounds, programmed_cells};

verus! {

/// Programming into an erased cell stores exactly the byte given.
proof fn lemma_program_erased(v: u8)
    ensures
        programmed_byte(ERASED_BYTE, v, false) == v,
{
    assert(0xFFu8 & v == v) by (bit_vector);
}

/// Round trip: preparing `offset..offset + data.len()`, writing `data` at
/// `offset` and reading the same range back yields `data`, for any bytes,
/// given a session whose marked sectors really are erased and cells that
/// program as commanded.
pub proof fn lemma_round_trip(s: ChipView, marks: Seq<bool>, offset: nat, data: Seq<u8>)
    requires
        chip_wf(s),
        !s.worn,
        marks.len() == sector_count(s.media),
        coherent(marks, s.cells),
        in_bounds(s.media, offset, data.len()),
    ensures
        ({
            let prepared = ChipView {
                cells: prepared_cells(s.media, s.cells, marks, offset, offset + data.len()),
                ..s
            };
            programmed_cells(prepared, offset, data).subrange(
                offset as int,
                (offset + data.len()) as int,
            ) == data
        }),
{
    let end = offset + data.len();
    let prepared = ChipView { cells: prepared_cells(s.media, s.cells, marks, offset, end), ..s };
    let written = programmed_cells(prepared, offset, data);
    assert forall|k: int| 0 <= k < data.len() implies #[trigger] written.subrange(
        offset as int,
        end as int,
    )[k] == data[k] by {
        let i = offset + k;
        if is_flash(s.media) {
            assert(covers(offset, end, (i / 4096) as nat));
            assert(i / 4096 < marks.len());
            assert(prepared.cells[i] == ERASED_BYTE);
            lemma_program_erased(data[k]);
        }
    }
    assert(written.subrange(offset as int, end as int) =~= data);
}

/// With every sector of `lo..hi` marked, none is counted as unmarked.
proof fn lemma_all_marked(marks: Seq<bool>, lo: nat, hi: nat)
    requires
        forall|s: int| lo <= s < hi ==> #[trigger] marks[s],
    ensures
        unmarked_count(marks, lo, hi) == 0,
    decreases hi - lo,
{
    if hi > lo {
        lemma_all_marked(marks, lo, (hi - 1) as nat);
    }
}

/// Preparing a range a second time in the same write pass erases no sector
/// and leaves every cell as it was.
pub proof fn lemma_prepare_idempotent(
    m: MediaType,
    cells: Seq<u8>,
    marks: Seq<bool>,
    start: nat,
    end: nat,
)
    requires
        marks.len() == sector_count(m),
        cells.len() == capacity(m),
        range_valid(m, start, end),
    ensures
        erases_needed(m, marks_after(m, marks, start, end), start, end) == 0,
        prepared_cells(m, cells, marks_after(m, marks, start, end), start, end) == cells,
{
    let after = marks_after(m, marks, start, end);
    if is_flash(m) && start < end {
        let lo = start / 4096;
        let hi = ((end - 1) / 4096 + 1) as nat;
        assert forall|s: int| lo <= s < hi implies #[trigger] after[s] by {
            assert(covers(start, end, s as nat));
        }
        lemma_all_marked(after, lo, hi);
    }
    assert(prepared_cells(m, cells, after, start, end) =~= cells);
}

} // verus!

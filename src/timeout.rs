//! Bounded completion polling: a countdown of polls, and the wait built on it.

use vstd::prelude::*;

use crate::chip::{chip_wf, ChipView, SaveChip};
use crate::error::Error;

verus! {

/// A countdown of polls: `Polling` until it has been ticked `bound` times,
/// then `elapsed`.
pub struct TimedWait {
    left: u32,
}

impl TimedWait {
    /// Ticks still allowed before the countdown has elapsed.
    pub closed spec fn remaining(&self) -> nat {
        self.left as nat
    }

    /// Starts a countdown of `bound` ticks.
    pub fn start(bound: u32) -> (r: TimedWait)
        ensures
            r.remaining() == bound,
    {
        TimedWait { left: bound }
    }

    /// Whether the countdown has run out.
    pub fn elapsed(&self) -> (r: bool)
        ensures
            r == (self.remaining() == 0),
    {
        self.left == 0
    }

    /// Advances the countdown by one tick.
    pub fn tick(&mut self)
        requires
            old(self).remaining() > 0,
        ensures
            final(self).remaining() == old(self).remaining() - 1,
    {
        self.left = self.left - 1;
    }
}

/// `a + b`, stopping at the largest `u64`.
pub open spec fn sat_add(a: nat, b: nat) -> nat {
    if a + b < u64::MAX {
        a + b
    } else {
        u64::MAX as nat
    }
}

/// Whether a completion wait of at most `bound` polls sees the chip done.
pub open spec fn completes_within(s: ChipView, bound: nat) -> bool {
    !s.stuck && s.pending < bound
}

/// Number of polls a completion wait of at most `bound` polls makes.
pub open spec fn polls_used(s: ChipView, bound: nat) -> nat {
    if completes_within(s, bound) {
        s.pending + 1
    } else {
        bound
    }
}

/// Chip state after a completion wait of at most `bound` polls.
pub open spec fn after_wait(s: ChipView, bound: nat) -> ChipView {
    ChipView {
        pending: if completes_within(s, bound) {
            0
        } else if s.stuck {
            s.pending
        } else {
            (s.pending - bound) as nat
        },
        polls: sat_add(s.polls, polls_used(s, bound)),
        ..s
    }
}

/// Polls the chip until it reports completion or `bound` polls have been
/// answered "busy"; never more than `bound` polls.
pub fn wait_ready(chip: &mut SaveChip, bound: u32) -> (r: Result<(), Error>)
    requires
        old(chip).wf(),
    ensures
        final(chip).wf(),
        r is Ok <==> completes_within(old(chip)@, bound as nat),
        r is Err ==> r == Err::<(), Error>(Error::Timeout),
        final(chip)@ == after_wait(old(chip)@, bound as nat),
{
    let mut wait = TimedWait::start(bound);
    let ghost s = chip@;
    while !wait.elapsed()
        invariant
            chip.wf(),
            wait.remaining() <= bound,
            chip_wf(s),
            s == old(chip)@,
            s.stuck || s.pending >= bound - wait.remaining(),
            chip@ == (ChipView {
                pending: if s.stuck {
                    s.pending
                } else {
                    (s.pending - (bound - wait.remaining())) as nat
                },
                polls: sat_add(s.polls, (bound - wait.remaining()) as nat),
                ..s
            }),
        decreases wait.remaining(),
    {
        if chip.is_ready() {
            return Ok(());
        }
        wait.tick();
    }
    Err(Error::Timeout)
}

} // verus!

//! Fields of the background control registers.

use vstd::prelude::*;

verus! {

/// The size of a background; its meaning depends on text or affine mode.
///
/// * Text mode: `Zero` uses one 32x32-tile screen block (256x256 px), `One`
///   two side by side (512x256), `Two` two stacked (256x512), `Three` four
///   (512x512).
/// * Affine mode: 128, 256, 512 and 1024 pixels square.
#[derive(Debug, Clone, Copy, PartialEq, Eq, Structural)]
pub enum BGSize {
    Zero,
    One,
    Two,
    Three,
}

impl BGSize {
    pub open spec fn spec_bits(self) -> u16 {
        match self {
            BGSize::Zero => 0,
            BGSize::One => 1,
            BGSize::Two => 2,
            BGSize::Three => 3,
        }
    }

    /// The two-bit field value of this size.
    pub fn bits(&self) -> (r: u16)
        ensures
            r == self.spec_bits(),
    {
        match self {
            BGSize::Zero => 0,
            BGSize::One => 1,
            BGSize::Two => 2,
            BGSize::Three => 3,
        }
    }

    /// The size held in the low two bits of `b`.
    pub fn from_bits(b: u16) -> (r: BGSize)
        ensures
            r.spec_bits() == b % 4,
    {
        match b % 4 {
            0 => BGSize::Zero,
            1 => BGSize::One,
            2 => BGSize::Two,
            _ => BGSize::Three,
        }
    }

    /// Width and height in pixels of a text-mode background of this size.
    pub fn text_pixels(&self) -> (r: (u32, u32))
        ensures
            r == match self {
                BGSize::Zero => (256u32, 256u32),
                BGSize::One => (512u32, 256u32),
                BGSize::Two => (256u32, 512u32),
                BGSize::Three => (512u32, 512u32),
            },
    {
        match self {
            BGSize::Zero => (256, 256),
            BGSize::One => (512, 256),
            BGSize::Two => (256, 512),
            BGSize::Three => (512, 512),
        }
    }

    /// Side in pixels of a square affine background of this size.
    pub fn affine_pixels(&self) -> (r: u32)
        ensures
            r == match self {
                BGSize::Zero => 128u32,
                BGSize::One => 256u32,
                BGSize::Two => 512u32,
                BGSize::Three => 1024u32,
            },
    {
        match self {
            BGSize::Zero => 128,
            BGSize::One => 256,
            BGSize::Two => 512,
            BGSize::Three => 1024,
        }
    }
}

} // verus!

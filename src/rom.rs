//! Fields of the cartridge wait-state control register.

use vstd::prelude::*;

verus! {

/// Wait states of the first access to a cartridge region.
#[derive(Debug, Clone, Copy, PartialEq, Eq, Structural)]
pub enum WaitstateFirstAccess {
    Cycles4,
    Cycles3,
    Cycles2,
    Cycles8,
}

impl WaitstateFirstAccess {
    pub open spec fn spec_bits(self) -> u16 {
        match self {
            WaitstateFirstAccess::Cycles4 => 0,
            WaitstateFirstAccess::Cycles3 => 1,
            WaitstateFirstAccess::Cycles2 => 2,
            WaitstateFirstAccess::Cycles8 => 3,
        }
    }

    /// The two-bit field value of this setting.
    pub fn bits(&self) -> (r: u16)
        ensures
            r == self.spec_bits(),
    {
        match self {
            WaitstateFirstAccess::Cycles4 => 0,
            WaitstateFirstAccess::Cycles3 => 1,
            WaitstateFirstAccess::Cycles2 => 2,
            WaitstateFirstAccess::Cycles8 => 3,
        }
    }

    /// The setting held in the low two bits of `b`.
    pub fn from_bits(b: u16) -> (r: WaitstateFirstAccess)
        ensures
            r.spec_bits() == b % 4,
    {
        match b % 4 {
            0 => WaitstateFirstAccess::Cycles4,
            1 => WaitstateFirstAccess::Cycles3,
            2 => WaitstateFirstAccess::Cycles2,
            _ => WaitstateFirstAccess::Cycles8,
        }
    }

    /// Number of wait cycles.
    pub fn cycles(&self) -> (r: u32)
        ensures
            r == match self {
                WaitstateFirstAccess::Cycles4 => 4u32,
                WaitstateFirstAccess::Cycles3 => 3u32,
                WaitstateFirstAccess::Cycles2 => 2u32,
                WaitstateFirstAccess::Cycles8 => 8u32,
            },
    {
        match self {
            WaitstateFirstAccess::Cycles4 => 4,
            WaitstateFirstAccess::Cycles3 => 3,
            WaitstateFirstAccess::Cycles2 => 2,
            WaitstateFirstAccess::Cycles8 => 8,
        }
    }
}

/// Clock put out on the cartridge PHI terminal.
#[derive(Debug, Clone, Copy, PartialEq, Eq, Structural)]
pub enum PhiTerminalOutput {
    Disabled,
    Freq4MHz,
    Freq8MHz,
    Freq16MHz,
}

impl PhiTerminalOutput {
    pub open spec fn spec_bits(self) -> u16 {
        match self {
            PhiTerminalOutput::Disabled => 0,
            PhiTerminalOutput::Freq4MHz => 1,
            PhiTerminalOutput::Freq8MHz => 2,
            PhiTerminalOutput::Freq16MHz => 3,
        }
    }

    /// The two-bit field value of this setting.
    pub fn bits(&self) -> (r: u16)
        ensures
            r == self.spec_bits(),
    {
        match self {
            PhiTerminalOutput::Disabled => 0,
            PhiTerminalOutput::Freq4MHz => 1,
            PhiTerminalOutput::Freq8MHz => 2,
            PhiTerminalOutput::Freq16MHz => 3,
        }
    }

    /// The setting held in the low two bits of `b`.
    pub fn from_bits(b: u16) -> (r: PhiTerminalOutput)
        ensures
            r.spec_bits() == b % 4,
    {
        match b % 4 {
            0 => PhiTerminalOutput::Disabled,
            1 => PhiTerminalOutput::Freq4MHz,
            2 => PhiTerminalOutput::Freq8MHz,
            _ => PhiTerminalOutput::Freq16MHz,
        }
    }
}

} // verus!

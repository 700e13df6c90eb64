//! Division as the BIOS computes it, and the parameter records of the
//! affine and bit-unpack system calls.

use vstd::prelude::*;

verus! {

/// Quotient of `n / d` rounded toward zero, as the division system call
/// and Rust's `/` compute it.
pub open spec fn trunc_div(n: int, d: int) -> int {
    if n >= 0 && d > 0 {
        n / d
    } else if n < 0 && d < 0 {
        (-n) / (-d)
    } else if n < 0 {
        -((-n) / d)
    } else {
        -(n / (-d))
    }
}

/// Remainder that goes with `trunc_div`: it has the sign of `n`.
pub open spec fn trunc_rem(n: int, d: int) -> int {
    n - d * trunc_div(n, d)
}

/// Division and remainder, the quotient rounded toward zero.
///
/// The denominator must not be zero, and `i32::MIN / -1` (whose quotient does
/// not fit) is excluded.
pub fn div_rem(numerator: i32, denominator: i32) -> (r: (i32, i32))
    requires
        denominator != 0,
        !(numerator == i32::MIN && denominator == -1),
    ensures
        r.0 == trunc_div(numerator as int, denominator as int),
        r.1 == trunc_rem(numerator as int, denominator as int),
{
    let n = numerator as i64;
    let d = denominator as i64;
    let an: i64 = if n < 0 {
        -n
    } else {
        n
    };
    let ad: i64 = if d < 0 {
        -d
    } else {
        d
    };
    let q = an / ad;
    let sq: i64 = if (n < 0) != (d < 0) {
        -q
    } else {
        q
    };
    assert(q <= an) by (nonlinear_arith)
        requires
            an >= 0,
            ad >= 1,
            q == an / ad,
    ;
    assert(0 <= an - ad * q < ad) by (nonlinear_arith)
        requires
            an >= 0,
            ad >= 1,
            q == an / ad,
    ;
    assert(sq <= i32::MAX) by {
        if (n < 0) != (d < 0) {
        } else if n < 0 {
            assert(an <= 2147483648);
            assert(ad >= 2 || an <= 2147483647);
            if ad >= 2 {
                assert(q <= an / 2) by (nonlinear_arith)
                    requires
                        an >= 0,
                        ad >= 2,
                        q == an / ad,
                ;
            }
        }
    }
    let p = ad * q;
    let rm: i64 = if n < 0 {
        n + p
    } else {
        n - p
    };
    proof {
        if n < 0 && d < 0 {
            assert(d * sq == -p) by (nonlinear_arith)
                requires
                    ad == -d,
                    sq == q,
                    p == ad * q,
            ;
        } else if n < 0 {
            assert(d * sq == -p) by (nonlinear_arith)
                requires
                    ad == d,
                    sq == -q,
                    p == ad * q,
            ;
        } else if d < 0 {
            assert(d * sq == p) by (nonlinear_arith)
                requires
                    ad == -d,
                    sq == -q,
                    p == ad * q,
            ;
        } else {
            assert(d * sq == p) by (nonlinear_arith)
                requires
                    ad == d,
                    sq == q,
                    p == ad * q,
            ;
        }
    }
    (sq as i32, rm as i32)
}

/// As `div_rem`, keeping only the quotient.
pub fn div(numerator: i32, denominator: i32) -> (r: i32)
    requires
        denominator != 0,
        !(numerator == i32::MIN && denominator == -1),
    ensures
        r == trunc_div(numerator as int, denominator as int),
{
    div_rem(numerator, denominator).0
}

/// As `div_rem`, keeping only the remainder.
pub fn rem(numerator: i32, denominator: i32) -> (r: i32)
    requires
        denominator != 0,
        !(numerator == i32::MIN && denominator == -1),
    ensures
        r == trunc_rem(numerator as int, denominator as int),
{
    div_rem(numerator, denominator).1
}


/// Parameters of the background affine-set call. Fields marked `.8f` are
/// fixed-point with eight fractional bits.
#[derive(Debug, Clone, Copy, PartialEq, Eq, Structural)]
pub struct BgAffineSetParams {
    /// Center of the source data, horizontal (`.8f`).
    pub data_center_x: i32,
    /// Center of the source data, vertical (`.8f`).
    pub data_center_y: i32,
    pub display_center_x: i16,
    pub display_center_y: i16,
    /// Horizontal scale (`.8f`).
    pub scale_x: i16,
    /// Vertical scale (`.8f`).
    pub scale_y: i16,
    pub angle: u16,
}

/// Parameters of the object affine-set call.
#[derive(Debug, Clone, Copy, PartialEq, Eq, Structural)]
pub struct ObjAffineSetParams {
    /// Horizontal scale (`.8f`).
    pub scale_x: i16,
    /// Vertical scale (`.8f`).
    pub scale_y: i16,
    pub angle: u16,
}

/// Bits per unit of the source of a bit-unpack.
#[derive(Debug, Clone, Copy, PartialEq, Eq, Structural)]
pub enum BitUnpackSourceBitWidth {
    One,
    Two,
    Four,
    Eight,
}

impl BitUnpackSourceBitWidth {
    pub open spec fn spec_bits(self) -> u8 {
        match self {
            BitUnpackSourceBitWidth::One => 1,
            BitUnpackSourceBitWidth::Two => 2,
            BitUnpackSourceBitWidth::Four => 4,
            BitUnpackSourceBitWidth::Eight => 8,
        }
    }

    /// The width in bits, the value the system call expects.
    pub fn bits(&self) -> (r: u8)
        ensures
            r == self.spec_bits(),
    {
        match self {
            BitUnpackSourceBitWidth::One => 1,
            BitUnpackSourceBitWidth::Two => 2,
            BitUnpackSourceBitWidth::Four => 4,
            BitUnpackSourceBitWidth::Eight => 8,
        }
    }
}

/// Bits per unit of the destination of a bit-unpack.
#[derive(Debug, Clone, Copy, PartialEq, Eq, Structural)]
pub enum BitUnpackDestinationBitWidth {
    One,
    Two,
    Four,
    Eight,
    Sixteen,
    ThirtyTwo,
}

impl BitUnpackDestinationBitWidth {
    pub open spec fn spec_bits(self) -> u8 {
        match self {
            BitUnpackDestinationBitWidth::One => 1,
            BitUnpackDestinationBitWidth::Two => 2,
            BitUnpackDestinationBitWidth::Four => 4,
            BitUnpackDestinationBitWidth::Eight => 8,
            BitUnpackDestinationBitWidth::Sixteen => 16,
            BitUnpackDestinationBitWidth::ThirtyTwo => 32,
        }
    }

    /// The width in bits, the value the system call expects.
    pub fn bits(&self) -> (r: u8)
        ensures
            r == self.spec_bits(),
    {
        match self {
            BitUnpackDestinationBitWidth::One => 1,
            BitUnpackDestinationBitWidth::Two => 2,
            BitUnpackDestinationBitWidth::Four => 4,
            BitUnpackDestinationBitWidth::Eight => 8,
            BitUnpackDestinationBitWidth::Sixteen => 16,
            BitUnpackDestinationBitWidth::ThirtyTwo => 32,
        }
    }
}

/// Bits 0-30: offset added to every nonzero unit (or every unit, with bit
/// 31 set).
#[derive(Debug, Clone, Copy, PartialEq, Eq, Structural)]
pub struct BitUnPackDataParams(pub u32);

impl BitUnPackDataParams {
    /// The offset in bits 0-30.
    pub fn data_offset(&self) -> (r: u32)
        ensures
            r == self.0 % 0x8000_0000,
    {
        self.0 % 0x8000_0000
    }

    /// Bit 31: whether the offset is added to zero units too.
    pub fn zero_data(&self) -> (r: bool)
        ensures
            r == (self.0 >= 0x8000_0000),
    {
        self.0 >= 0x8000_0000
    }
}

/// Parameters of the bit-unpack call.
#[derive(Debug, Clone, Copy, PartialEq, Eq, Structural)]
pub struct BitUnpackParams {
    pub source_data_length: u16,
    pub source_bit_width: BitUnpackSourceBitWidth,
    pub destination_bit_width: BitUnpackDestinationBitWidth,
    pub data_offset_and_zero_flag: BitUnPackDataParams,
}

} // verus!

//! Conversions from `i64` to every other integer sample type.

use vstd::prelude::*;
use crate::sample::{rescale, Pcm};
use crate::sample::types::{I24, I48, U24, U48};
use super::shift::{shr_i64_16, shr_i64_32, shr_i64_40, shr_i64_48, shr_i64_56};

verus! {

/// Converts an `i64` to an `i8`.
pub fn to_i8(s: i64) -> (r: i8)
    requires
        s.valid(),
    ensures
        r.valid(),
        r.amp() == rescale(s.amp(), 64, 8),
{
    proof {
        shr_i64_56(s);
    }
    (s >> 56) as i8
}

/// Converts an `i64` to an `i16`.
pub fn to_i16(s: i64) -> (r: i16)
    requires
        s.valid(),
    ensures
        r.valid(),
        r.amp() == rescale(s.amp(), 64, 16),
{
    proof {
        shr_i64_48(s);
    }
    (s >> 48) as i16
}

/// Converts an `i64` to an `I24`.
pub fn to_i24(s: i64) -> (r: I24)
    requires
        s.valid(),
    ensures
        r.valid(),
        r.amp() == rescale(s.amp(), 64, 24),
{
    proof {
        shr_i64_40(s);
    }
    I24::new_unchecked((s >> 40) as i32)
}

/// Converts an `i64` to an `i32`.
pub fn to_i32(s: i64) -> (r: i32)
    requires
        s.valid(),
    ensures
        r.valid(),
        r.amp() == rescale(s.amp(), 64, 32),
{
    proof {
        shr_i64_32(s);
    }
    (s >> 32) as i32
}

/// Converts an `i64` to an `I48`.
pub fn to_i48(s: i64) -> (r: I48)
    requires
        s.valid(),
    ensures
        r.valid(),
        r.amp() == rescale(s.amp(), 64, 48),
{
    proof {
        shr_i64_16(s);
    }
    I48::new_unchecked((s >> 16) as i64)
}

/// Converts an `i64` to an `u8`.
pub fn to_u8(s: i64) -> (r: u8)
    requires
        s.valid(),
    ensures
        r.valid(),
        r.amp() == rescale(s.amp(), 64, 8),
{
    super::i8::to_u8(to_i8(s))
}

/// Converts an `i64` to an `u16`.
pub fn to_u16(s: i64) -> (r: u16)
    requires
        s.valid(),
    ensures
        r.valid(),
        r.amp() == rescale(s.amp(), 64, 16),
{
    super::i16::to_u16(to_i16(s))
}

/// Converts an `i64` to an `U24`.
pub fn to_u24(s: i64) -> (r: U24)
    requires
        s.valid(),
    ensures
        r.valid(),
        r.amp() == rescale(s.amp(), 64, 24),
{
    super::i24::to_u24(to_i24(s))
}

/// Converts an `i64` to an `u32`.
pub fn to_u32(s: i64) -> (r: u32)
    requires
        s.valid(),
    ensures
        r.valid(),
        r.amp() == rescale(s.amp(), 64, 32),
{
    super::i32::to_u32(to_i32(s))
}

/// Converts an `i64` to an `U48`.
pub fn to_u48(s: i64) -> (r: U48)
    requires
        s.valid(),
    ensures
        r.valid(),
        r.amp() == rescale(s.amp(), 64, 48),
{
    super::i48::to_u48(to_i48(s))
}

/// Converts an `i64` to an `u64`.
pub fn to_u64(s: i64) -> (r: u64)
    requires
        s.valid(),
    ensures
        r.valid(),
        r.amp() == rescale(s.amp(), 64, 64),
{
    if s < 0 {
        (s + 9_223_372_036_854_775_807 + 1) as u64
    } else {
        (s as u64) + 9_223_372_036_854_775_808
    }
}

} // verus!

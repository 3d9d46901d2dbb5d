//! Conversions from `u64` to every other integer sample type.

use vstd::prelude::*;
use crate::sample::{rescale, Pcm};
use crate::sample::types::{I24, I48, U24, U48};
use super::shift::{shr_u64_16, shr_u64_32, shr_u64_40, shr_u64_48, shr_u64_56};

verus! {

/// Converts an `u64` to an `i8`.
pub fn to_i8(s: u64) -> (r: i8)
    requires
        s.valid(),
    ensures
        r.valid(),
        r.amp() == rescale(s.amp(), 64, 8),
{
    super::u8::to_i8(to_u8(s))
}

/// Converts an `u64` to an `i16`.
pub fn to_i16(s: u64) -> (r: i16)
    requires
        s.valid(),
    ensures
        r.valid(),
        r.amp() == rescale(s.amp(), 64, 16),
{
    super::u16::to_i16(to_u16(s))
}

/// Converts an `u64` to an `I24`.
pub fn to_i24(s: u64) -> (r: I24)
    requires
        s.valid(),
    ensures
        r.valid(),
        r.amp() == rescale(s.amp(), 64, 24),
{
    super::u24::to_i24(to_u24(s))
}

/// Converts an `u64` to an `i32`.
pub fn to_i32(s: u64) -> (r: i32)
    requires
        s.valid(),
    ensures
        r.valid(),
        r.amp() == rescale(s.amp(), 64, 32),
{
    super::u32::to_i32(to_u32(s))
}

/// Converts an `u64` to an `I48`.
pub fn to_i48(s: u64) -> (r: I48)
    requires
        s.valid(),
    ensures
        r.valid(),
        r.amp() == rescale(s.amp(), 64, 48),
{
    super::u48::to_i48(to_u48(s))
}

/// Converts an `u64` to an `i64`.
pub fn to_i64(s: u64) -> (r: i64)
    requires
        s.valid(),
    ensures
        r.valid(),
        r.amp() == rescale(s.amp(), 64, 64),
{
    if s < 9_223_372_036_854_775_808 {
        s as i64 - 9_223_372_036_854_775_807 - 1
    } else {
        (s - 9_223_372_036_854_775_808) as i64
    }
}

/// Converts an `u64` to an `u8`.
pub fn to_u8(s: u64) -> (r: u8)
    requires
        s.valid(),
    ensures
        r.valid(),
        r.amp() == rescale(s.amp(), 64, 8),
{
    proof {
        shr_u64_56(s);
    }
    (s >> 56) as u8
}

/// Converts an `u64` to an `u16`.
pub fn to_u16(s: u64) -> (r: u16)
    requires
        s.valid(),
    ensures
        r.valid(),
        r.amp() == rescale(s.amp(), 64, 16),
{
    proof {
        shr_u64_48(s);
    }
    (s >> 48) as u16
}

/// Converts an `u64` to an `U24`.
pub fn to_u24(s: u64) -> (r: U24)
    requires
        s.valid(),
    ensures
        r.valid(),
        r.amp() == rescale(s.amp(), 64, 24),
{
    proof {
        shr_u64_40(s);
    }
    U24::new_unchecked((s >> 40) as i32)
}

/// Converts an `u64` to an `u32`.
pub fn to_u32(s: u64) -> (r: u32)
    requires
        s.valid(),
    ensures
        r.valid(),
        r.amp() == rescale(s.amp(), 64, 32),
{
    proof {
        shr_u64_32(s);
    }
    (s >> 32) as u32
}

/// Converts an `u64` to an `U48`.
pub fn to_u48(s: u64) -> (r: U48)
    requires
        s.valid(),
    ensures
        r.valid(),
        r.amp() == rescale(s.amp(), 64, 48),
{
    proof {
        shr_u64_16(s);
    }
    U48::new_unchecked((s >> 16) as i64)
}

} // verus!

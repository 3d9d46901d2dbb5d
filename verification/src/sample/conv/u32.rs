//! Conversions from `u32` to every other integer sample type.

use vstd::prelude::*;
use crate::sample::{rescale, Pcm};
use crate::sample::types::{I24, I48, U24, U48};
use super::shift::{shr_u32_16, shr_u32_24, shr_u32_8};

verus! {

/// Converts an `u32` to an `i8`.
pub fn to_i8(s: u32) -> (r: i8)
    requires
        s.valid(),
    ensures
        r.valid(),
        r.amp() == rescale(s.amp(), 32, 8),
{
    super::u8::to_i8(to_u8(s))
}

/// Converts an `u32` to an `i16`.
pub fn to_i16(s: u32) -> (r: i16)
    requires
        s.valid(),
    ensures
        r.valid(),
        r.amp() == rescale(s.amp(), 32, 16),
{
    super::u16::to_i16(to_u16(s))
}

/// Converts an `u32` to an `I24`.
pub fn to_i24(s: u32) -> (r: I24)
    requires
        s.valid(),
    ensures
        r.valid(),
        r.amp() == rescale(s.amp(), 32, 24),
{
    super::u24::to_i24(to_u24(s))
}

/// Converts an `u32` to an `i32`.
pub fn to_i32(s: u32) -> (r: i32)
    requires
        s.valid(),
    ensures
        r.valid(),
        r.amp() == rescale(s.amp(), 32, 32),
{
    if s < 2_147_483_648 {
        s as i32 - 2_147_483_647 - 1
    } else {
        (s - 2_147_483_648) as i32
    }
}

/// Converts an `u32` to an `I48`.
pub fn to_i48(s: u32) -> (r: I48)
    requires
        s.valid(),
    ensures
        r.valid(),
        r.amp() == rescale(s.amp(), 32, 48),
{
    I48::new_unchecked(((s as i64) - 2_147_483_648) * 65_536)
}

/// Converts an `u32` to an `i64`.
pub fn to_i64(s: u32) -> (r: i64)
    requires
        s.valid(),
    ensures
        r.valid(),
        r.amp() == rescale(s.amp(), 32, 64),
{
    ((s as i64) - 2_147_483_648) * 4_294_967_296
}

/// Converts an `u32` to an `u8`.
pub fn to_u8(s: u32) -> (r: u8)
    requires
        s.valid(),
    ensures
        r.valid(),
        r.amp() == rescale(s.amp(), 32, 8),
{
    proof {
        shr_u32_24(s);
    }
    (s >> 24) as u8
}

/// Converts an `u32` to an `u16`.
pub fn to_u16(s: u32) -> (r: u16)
    requires
        s.valid(),
    ensures
        r.valid(),
        r.amp() == rescale(s.amp(), 32, 16),
{
    proof {
        shr_u32_16(s);
    }
    (s >> 16) as u16
}

/// Converts an `u32` to an `U24`.
pub fn to_u24(s: u32) -> (r: U24)
    requires
        s.valid(),
    ensures
        r.valid(),
        r.amp() == rescale(s.amp(), 32, 24),
{
    proof {
        shr_u32_8(s);
    }
    U24::new_unchecked((s >> 8) as i32)
}

/// Converts an `u32` to an `U48`.
pub fn to_u48(s: u32) -> (r: U48)
    requires
        s.valid(),
    ensures
        r.valid(),
        r.amp() == rescale(s.amp(), 32, 48),
{
    U48::new_unchecked((s as i64) * 65_536)
}

/// Converts an `u32` to an `u64`.
pub fn to_u64(s: u32) -> (r: u64)
    requires
        s.valid(),
    ensures
        r.valid(),
        r.amp() == rescale(s.amp(), 32, 64),
{
    (s as u64) * 4_294_967_296
}

} // verus!

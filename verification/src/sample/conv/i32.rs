//! Conversions from `i32` to every other integer sample type.

use vstd::prelude::*;
use crate::sample::{rescale, Pcm};
use crate::sample::types::{I24, I48, U24, U48};
use super::shift::{shr_i32_16, shr_i32_24, shr_i32_8};

verus! {

/// Converts an `i32` to an `i8`.
pub fn to_i8(s: i32) -> (r: i8)
    requires
        s.valid(),
    ensures
        r.valid(),
        r.amp() == rescale(s.amp(), 32, 8),
{
    proof {
        shr_i32_24(s);
    }
    (s >> 24) as i8
}

/// Converts an `i32` to an `i16`.
pub fn to_i16(s: i32) -> (r: i16)
    requires
        s.valid(),
    ensures
        r.valid(),
        r.amp() == rescale(s.amp(), 32, 16),
{
    proof {
        shr_i32_16(s);
    }
    (s >> 16) as i16
}

/// Converts an `i32` to an `I24`.
pub fn to_i24(s: i32) -> (r: I24)
    requires
        s.valid(),
    ensures
        r.valid(),
        r.amp() == rescale(s.amp(), 32, 24),
{
    proof {
        shr_i32_8(s);
    }
    I24::new_unchecked((s >> 8) as i32)
}

/// Converts an `i32` to an `I48`.
pub fn to_i48(s: i32) -> (r: I48)
    requires
        s.valid(),
    ensures
        r.valid(),
        r.amp() == rescale(s.amp(), 32, 48),
{
    I48::new_unchecked((s as i64) * 65_536)
}

/// Converts an `i32` to an `i64`.
pub fn to_i64(s: i32) -> (r: i64)
    requires
        s.valid(),
    ensures
        r.valid(),
        r.amp() == rescale(s.amp(), 32, 64),
{
    (s as i64) * 4_294_967_296
}

/// Converts an `i32` to an `u8`.
pub fn to_u8(s: i32) -> (r: u8)
    requires
        s.valid(),
    ensures
        r.valid(),
        r.amp() == rescale(s.amp(), 32, 8),
{
    super::i8::to_u8(to_i8(s))
}

/// Converts an `i32` to an `u16`.
pub fn to_u16(s: i32) -> (r: u16)
    requires
        s.valid(),
    ensures
        r.valid(),
        r.amp() == rescale(s.amp(), 32, 16),
{
    super::i16::to_u16(to_i16(s))
}

/// Converts an `i32` to an `U24`.
pub fn to_u24(s: i32) -> (r: U24)
    requires
        s.valid(),
    ensures
        r.valid(),
        r.amp() == rescale(s.amp(), 32, 24),
{
    super::i24::to_u24(to_i24(s))
}

/// Converts an `i32` to an `u32`.
pub fn to_u32(s: i32) -> (r: u32)
    requires
        s.valid(),
    ensures
        r.valid(),
        r.amp() == rescale(s.amp(), 32, 32),
{
    if s < 0 {
        (s + 2_147_483_647 + 1) as u32
    } else {
        (s as u32) + 2_147_483_648
    }
}

/// Converts an `i32` to an `U48`.
pub fn to_u48(s: i32) -> (r: U48)
    requires
        s.valid(),
    ensures
        r.valid(),
        r.amp() == rescale(s.amp(), 32, 48),
{
    U48::new_unchecked(((s as i64) + 2_147_483_648) * 65_536)
}

/// Converts an `i32` to an `u64`.
pub fn to_u64(s: i32) -> (r: u64)
    requires
        s.valid(),
    ensures
        r.valid(),
        r.amp() == rescale(s.amp(), 32, 64),
{
    if s < 0 {
        ((s + 2_147_483_647 + 1) as u64) * 4_294_967_296
    } else {
        ((s as u64) + 2_147_483_648) * 4_294_967_296
    }
}

} // verus!

//! Conversions from `i16` to every other integer sample type.

use vstd::prelude::*;
use crate::sample::{rescale, Pcm};
use crate::sample::types::{I24, I48, U24, U48};
use super::shift::{shr_i16_8};

verus! {

/// Converts an `i16` to an `i8`.
pub fn to_i8(s: i16) -> (r: i8)
    requires
        s.valid(),
    ensures
        r.valid(),
        r.amp() == rescale(s.amp(), 16, 8),
{
    proof {
        shr_i16_8(s);
    }
    (s >> 8) as i8
}

/// Converts an `i16` to an `I24`.
pub fn to_i24(s: i16) -> (r: I24)
    requires
        s.valid(),
    ensures
        r.valid(),
        r.amp() == rescale(s.amp(), 16, 24),
{
    I24::new_unchecked((s as i32) * 256)
}

/// Converts an `i16` to an `i32`.
pub fn to_i32(s: i16) -> (r: i32)
    requires
        s.valid(),
    ensures
        r.valid(),
        r.amp() == rescale(s.amp(), 16, 32),
{
    (s as i32) * 65_536
}

/// Converts an `i16` to an `I48`.
pub fn to_i48(s: i16) -> (r: I48)
    requires
        s.valid(),
    ensures
        r.valid(),
        r.amp() == rescale(s.amp(), 16, 48),
{
    I48::new_unchecked((s as i64) * 4_294_967_296)
}

/// Converts an `i16` to an `i64`.
pub fn to_i64(s: i16) -> (r: i64)
    requires
        s.valid(),
    ensures
        r.valid(),
        r.amp() == rescale(s.amp(), 16, 64),
{
    (s as i64) * 281_474_976_710_656
}

/// Converts an `i16` to an `u8`.
pub fn to_u8(s: i16) -> (r: u8)
    requires
        s.valid(),
    ensures
        r.valid(),
        r.amp() == rescale(s.amp(), 16, 8),
{
    super::i8::to_u8(to_i8(s))
}

/// Converts an `i16` to an `u16`.
pub fn to_u16(s: i16) -> (r: u16)
    requires
        s.valid(),
    ensures
        r.valid(),
        r.amp() == rescale(s.amp(), 16, 16),
{
    if s < 0 {
        (s + 32_767 + 1) as u16
    } else {
        (s as u16) + 32_768
    }
}

/// Converts an `i16` to an `U24`.
pub fn to_u24(s: i16) -> (r: U24)
    requires
        s.valid(),
    ensures
        r.valid(),
        r.amp() == rescale(s.amp(), 16, 24),
{
    U24::new_unchecked(((s as i32) + 32_768) * 256)
}

/// Converts an `i16` to an `u32`.
pub fn to_u32(s: i16) -> (r: u32)
    requires
        s.valid(),
    ensures
        r.valid(),
        r.amp() == rescale(s.amp(), 16, 32),
{
    if s < 0 {
        ((s + 32_767 + 1) as u32) * 65_536
    } else {
        ((s as u32) + 32_768) * 65_536
    }
}

/// Converts an `i16` to an `U48`.
pub fn to_u48(s: i16) -> (r: U48)
    requires
        s.valid(),
    ensures
        r.valid(),
        r.amp() == rescale(s.amp(), 16, 48),
{
    U48::new_unchecked(((s as i64) + 32_768) * 4_294_967_296)
}

/// Converts an `i16` to an `u64`.
pub fn to_u64(s: i16) -> (r: u64)
    requires
        s.valid(),
    ensures
        r.valid(),
        r.amp() == rescale(s.amp(), 16, 64),
{
    if s < 0 {
        ((s + 32_767 + 1) as u64) * 281_474_976_710_656
    } else {
        ((s as u64) + 32_768) * 281_474_976_710_656
    }
}

} // verus!

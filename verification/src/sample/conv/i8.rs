//! Conversions from `i8` to every other integer sample type.

use vstd::prelude::*;
use crate::sample::{rescale, Pcm};
use crate::sample::types::{I24, I48, U24, U48};

verus! {

/// Converts an `i8` to an `i16`.
pub fn to_i16(s: i8) -> (r: i16)
    requires
        s.valid(),
    ensures
        r.valid(),
        r.amp() == rescale(s.amp(), 8, 16),
{
    (s as i16) * 256
}

/// Converts an `i8` to an `I24`.
pub fn to_i24(s: i8) -> (r: I24)
    requires
        s.valid(),
    ensures
        r.valid(),
        r.amp() == rescale(s.amp(), 8, 24),
{
    I24::new_unchecked((s as i32) * 65_536)
}

/// Converts an `i8` to an `i32`.
pub fn to_i32(s: i8) -> (r: i32)
    requires
        s.valid(),
    ensures
        r.valid(),
        r.amp() == rescale(s.amp(), 8, 32),
{
    (s as i32) * 16_777_216
}

/// Converts an `i8` to an `I48`.
pub fn to_i48(s: i8) -> (r: I48)
    requires
        s.valid(),
    ensures
        r.valid(),
        r.amp() == rescale(s.amp(), 8, 48),
{
    I48::new_unchecked((s as i64) * 1_099_511_627_776)
}

/// Converts an `i8` to an `i64`.
pub fn to_i64(s: i8) -> (r: i64)
    requires
        s.valid(),
    ensures
        r.valid(),
        r.amp() == rescale(s.amp(), 8, 64),
{
    (s as i64) * 72_057_594_037_927_936
}

/// Converts an `i8` to an `u8`.
pub fn to_u8(s: i8) -> (r: u8)
    requires
        s.valid(),
    ensures
        r.valid(),
        r.amp() == rescale(s.amp(), 8, 8),
{
    if s < 0 {
        (s + 127 + 1) as u8
    } else {
        (s as u8) + 128
    }
}

/// Converts an `i8` to an `u16`.
pub fn to_u16(s: i8) -> (r: u16)
    requires
        s.valid(),
    ensures
        r.valid(),
        r.amp() == rescale(s.amp(), 8, 16),
{
    if s < 0 {
        ((s + 127 + 1) as u16) * 256
    } else {
        ((s as u16) + 128) * 256
    }
}

/// Converts an `i8` to an `U24`.
pub fn to_u24(s: i8) -> (r: U24)
    requires
        s.valid(),
    ensures
        r.valid(),
        r.amp() == rescale(s.amp(), 8, 24),
{
    U24::new_unchecked(((s as i32) + 128) * 65_536)
}

/// Converts an `i8` to an `u32`.
pub fn to_u32(s: i8) -> (r: u32)
    requires
        s.valid(),
    ensures
        r.valid(),
        r.amp() == rescale(s.amp(), 8, 32),
{
    if s < 0 {
        ((s + 127 + 1) as u32) * 16_777_216
    } else {
        ((s as u32) + 128) * 16_777_216
    }
}

/// Converts an `i8` to an `U48`.
pub fn to_u48(s: i8) -> (r: U48)
    requires
        s.valid(),
    ensures
        r.valid(),
        r.amp() == rescale(s.amp(), 8, 48),
{
    U48::new_unchecked(((s as i64) + 128) * 1_099_511_627_776)
}

/// Converts an `i8` to an `u64`.
pub fn to_u64(s: i8) -> (r: u64)
    requires
        s.valid(),
    ensures
        r.valid(),
        r.amp() == rescale(s.amp(), 8, 64),
{
    if s < 0 {
        ((s + 127 + 1) as u64) * 72_057_594_037_927_936
    } else {
        ((s as u64) + 128) * 72_057_594_037_927_936
    }
}

} // verus!

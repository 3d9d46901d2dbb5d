//! Conversions from `u8` to every other integer sample type.

use vstd::prelude::*;
use crate::sample::{rescale, Pcm};
use crate::sample::types::{I24, I48, U24, U48};

verus! {

/// Converts an `u8` to an `i8`.
pub fn to_i8(s: u8) -> (r: i8)
    requires
        s.valid(),
    ensures
        r.valid(),
        r.amp() == rescale(s.amp(), 8, 8),
{
    if s < 128 {
        s as i8 - 127 - 1
    } else {
        (s - 128) as i8
    }
}

/// Converts an `u8` to an `i16`.
pub fn to_i16(s: u8) -> (r: i16)
    requires
        s.valid(),
    ensures
        r.valid(),
        r.amp() == rescale(s.amp(), 8, 16),
{
    ((s as i16) - 128) * 256
}

/// Converts an `u8` to an `I24`.
pub fn to_i24(s: u8) -> (r: I24)
    requires
        s.valid(),
    ensures
        r.valid(),
        r.amp() == rescale(s.amp(), 8, 24),
{
    I24::new_unchecked(((s as i32) - 128) * 65_536)
}

/// Converts an `u8` to an `i32`.
pub fn to_i32(s: u8) -> (r: i32)
    requires
        s.valid(),
    ensures
        r.valid(),
        r.amp() == rescale(s.amp(), 8, 32),
{
    ((s as i32) - 128) * 16_777_216
}

/// Converts an `u8` to an `I48`.
pub fn to_i48(s: u8) -> (r: I48)
    requires
        s.valid(),
    ensures
        r.valid(),
        r.amp() == rescale(s.amp(), 8, 48),
{
    I48::new_unchecked(((s as i64) - 128) * 1_099_511_627_776)
}

/// Converts an `u8` to an `i64`.
pub fn to_i64(s: u8) -> (r: i64)
    requires
        s.valid(),
    ensures
        r.valid(),
        r.amp() == rescale(s.amp(), 8, 64),
{
    ((s as i64) - 128) * 72_057_594_037_927_936
}

/// Converts an `u8` to an `u16`.
pub fn to_u16(s: u8) -> (r: u16)
    requires
        s.valid(),
    ensures
        r.valid(),
        r.amp() == rescale(s.amp(), 8, 16),
{
    (s as u16) * 256
}

/// Converts an `u8` to an `U24`.
pub fn to_u24(s: u8) -> (r: U24)
    requires
        s.valid(),
    ensures
        r.valid(),
        r.amp() == rescale(s.amp(), 8, 24),
{
    U24::new_unchecked((s as i32) * 65_536)
}

/// Converts an `u8` to an `u32`.
pub fn to_u32(s: u8) -> (r: u32)
    requires
        s.valid(),
    ensures
        r.valid(),
        r.amp() == rescale(s.amp(), 8, 32),
{
    (s as u32) * 16_777_216
}

/// Converts an `u8` to an `U48`.
pub fn to_u48(s: u8) -> (r: U48)
    requires
        s.valid(),
    ensures
        r.valid(),
        r.amp() == rescale(s.amp(), 8, 48),
{
    U48::new_unchecked((s as i64) * 1_099_511_627_776)
}

/// Converts an `u8` to an `u64`.
pub fn to_u64(s: u8) -> (r: u64)
    requires
        s.valid(),
    ensures
        r.valid(),
        r.amp() == rescale(s.amp(), 8, 64),
{
    (s as u64) * 72_057_594_037_927_936
}

} // verus!

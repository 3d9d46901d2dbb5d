//! Conversions from `I24` to every other integer sample type.

use vstd::prelude::*;
use crate::sample::{rescale, Pcm};
use crate::sample::types::{I24, I48, U24, U48};
use super::shift::{shr_i32_16, shr_i32_8};

verus! {

/// Converts an `I24` to an `i8`.
pub fn to_i8(s: I24) -> (r: i8)
    requires
        s.valid(),
    ensures
        r.valid(),
        r.amp() == rescale(s.amp(), 24, 8),
{
    proof {
        shr_i32_16(s@);
    }
    (s.inner() >> 16) as i8
}

/// Converts an `I24` to an `i16`.
pub fn to_i16(s: I24) -> (r: i16)
    requires
        s.valid(),
    ensures
        r.valid(),
        r.amp() == rescale(s.amp(), 24, 16),
{
    proof {
        shr_i32_8(s@);
    }
    (s.inner() >> 8) as i16
}

/// Converts an `I24` to an `i32`.
pub fn to_i32(s: I24) -> (r: i32)
    requires
        s.valid(),
    ensures
        r.valid(),
        r.amp() == rescale(s.amp(), 24, 32),
{
    (s.inner() as i32) * 256
}

/// Converts an `I24` to an `I48`.
pub fn to_i48(s: I24) -> (r: I48)
    requires
        s.valid(),
    ensures
        r.valid(),
        r.amp() == rescale(s.amp(), 24, 48),
{
    I48::new_unchecked((s.inner() as i64) * 16_777_216)
}

/// Converts an `I24` to an `i64`.
pub fn to_i64(s: I24) -> (r: i64)
    requires
        s.valid(),
    ensures
        r.valid(),
        r.amp() == rescale(s.amp(), 24, 64),
{
    (s.inner() as i64) * 1_099_511_627_776
}

/// Converts an `I24` to an `u8`.
pub fn to_u8(s: I24) -> (r: u8)
    requires
        s.valid(),
    ensures
        r.valid(),
        r.amp() == rescale(s.amp(), 24, 8),
{
    super::i8::to_u8(to_i8(s))
}

/// Converts an `I24` to an `u16`.
pub fn to_u16(s: I24) -> (r: u16)
    requires
        s.valid(),
    ensures
        r.valid(),
        r.amp() == rescale(s.amp(), 24, 16),
{
    super::i16::to_u16(to_i16(s))
}

/// Converts an `I24` to an `U24`.
pub fn to_u24(s: I24) -> (r: U24)
    requires
        s.valid(),
    ensures
        r.valid(),
        r.amp() == rescale(s.amp(), 24, 24),
{
    U24::new_unchecked(s.inner() + 8_388_608)
}

/// Converts an `I24` to an `u32`.
pub fn to_u32(s: I24) -> (r: u32)
    requires
        s.valid(),
    ensures
        r.valid(),
        r.amp() == rescale(s.amp(), 24, 32),
{
    ((s.inner() + 8_388_608) as u32) * 256
}

/// Converts an `I24` to an `U48`.
pub fn to_u48(s: I24) -> (r: U48)
    requires
        s.valid(),
    ensures
        r.valid(),
        r.amp() == rescale(s.amp(), 24, 48),
{
    U48::new_unchecked(((s.inner() as i64) + 8_388_608) * 16_777_216)
}

/// Converts an `I24` to an `u64`.
pub fn to_u64(s: I24) -> (r: u64)
    requires
        s.valid(),
    ensures
        r.valid(),
        r.amp() == rescale(s.amp(), 24, 64),
{
    ((s.inner() + 8_388_608) as u64) * 1_099_511_627_776
}

} // verus!

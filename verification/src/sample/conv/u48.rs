//! Conversions from `U48` to every other integer sample type.

use vstd::prelude::*;
use crate::sample::{rescale, Pcm};
use crate::sample::types::{I24, I48, U24, U48};
use super::shift::{shr_i64_16, shr_i64_24, shr_i64_32, shr_i64_40};

verus! {

/// Converts an `U48` to an `i8`.
pub fn to_i8(s: U48) -> (r: i8)
    requires
        s.valid(),
    ensures
        r.valid(),
        r.amp() == rescale(s.amp(), 48, 8),
{
    super::u8::to_i8(to_u8(s))
}

/// Converts an `U48` to an `i16`.
pub fn to_i16(s: U48) -> (r: i16)
    requires
        s.valid(),
    ensures
        r.valid(),
        r.amp() == rescale(s.amp(), 48, 16),
{
    super::u16::to_i16(to_u16(s))
}

/// Converts an `U48` to an `I24`.
pub fn to_i24(s: U48) -> (r: I24)
    requires
        s.valid(),
    ensures
        r.valid(),
        r.amp() == rescale(s.amp(), 48, 24),
{
    super::u24::to_i24(to_u24(s))
}

/// Converts an `U48` to an `i32`.
pub fn to_i32(s: U48) -> (r: i32)
    requires
        s.valid(),
    ensures
        r.valid(),
        r.amp() == rescale(s.amp(), 48, 32),
{
    super::u32::to_i32(to_u32(s))
}

/// Converts an `U48` to an `I48`.
pub fn to_i48(s: U48) -> (r: I48)
    requires
        s.valid(),
    ensures
        r.valid(),
        r.amp() == rescale(s.amp(), 48, 48),
{
    I48::new_unchecked(s.inner() - 140_737_488_355_328)
}

/// Converts an `U48` to an `i64`.
pub fn to_i64(s: U48) -> (r: i64)
    requires
        s.valid(),
    ensures
        r.valid(),
        r.amp() == rescale(s.amp(), 48, 64),
{
    ((s.inner() as i64) - 140_737_488_355_328) * 65_536
}

/// Converts an `U48` to an `u8`.
pub fn to_u8(s: U48) -> (r: u8)
    requires
        s.valid(),
    ensures
        r.valid(),
        r.amp() == rescale(s.amp(), 48, 8),
{
    proof {
        shr_i64_40(s@);
    }
    (s.inner() >> 40) as u8
}

/// Converts an `U48` to an `u16`.
pub fn to_u16(s: U48) -> (r: u16)
    requires
        s.valid(),
    ensures
        r.valid(),
        r.amp() == rescale(s.amp(), 48, 16),
{
    proof {
        shr_i64_32(s@);
    }
    (s.inner() >> 32) as u16
}

/// Converts an `U48` to an `U24`.
pub fn to_u24(s: U48) -> (r: U24)
    requires
        s.valid(),
    ensures
        r.valid(),
        r.amp() == rescale(s.amp(), 48, 24),
{
    proof {
        shr_i64_24(s@);
    }
    U24::new_unchecked((s.inner() >> 24) as i32)
}

/// Converts an `U48` to an `u32`.
pub fn to_u32(s: U48) -> (r: u32)
    requires
        s.valid(),
    ensures
        r.valid(),
        r.amp() == rescale(s.amp(), 48, 32),
{
    proof {
        shr_i64_16(s@);
    }
    (s.inner() >> 16) as u32
}

/// Converts an `U48` to an `u64`.
pub fn to_u64(s: U48) -> (r: u64)
    requires
        s.valid(),
    ensures
        r.valid(),
        r.amp() == rescale(s.amp(), 48, 64),
{
    (s.inner() as u64) * 65_536
}

} // verus!

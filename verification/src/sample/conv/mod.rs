//! Pure functions and traits for converting between i8, i16, I24, i32, I48, i64, u8, u16, U24,
//! u32, U48 and u64.
//!
//! Each function `<source>::to_<target>` re-expresses the amplitude of a valid source sample at
//! the target depth. The custom types are expected to hold a value within their range; every
//! result does.

pub mod i8;
pub mod i16;
pub mod i24;
pub mod i32;
pub mod i48;
pub mod i64;
pub mod u8;
pub mod u16;
pub mod u24;
pub mod u32;
pub mod u48;
pub mod u64;
mod shift;

use vstd::prelude::*;
use crate::sample::types::{I24, I48, U24, U48};
use crate::sample::FromSample;

verus! {

impl FromSample<i16> for i8 {
    fn from_sample_(s: i16) -> (r: Self) {
        self::i16::to_i8(s)
    }
}

impl FromSample<I24> for i8 {
    fn from_sample_(s: I24) -> (r: Self) {
        self::i24::to_i8(s)
    }
}

impl FromSample<i32> for i8 {
    fn from_sample_(s: i32) -> (r: Self) {
        self::i32::to_i8(s)
    }
}

impl FromSample<I48> for i8 {
    fn from_sample_(s: I48) -> (r: Self) {
        self::i48::to_i8(s)
    }
}

impl FromSample<i64> for i8 {
    fn from_sample_(s: i64) -> (r: Self) {
        self::i64::to_i8(s)
    }
}

impl FromSample<u8> for i8 {
    fn from_sample_(s: u8) -> (r: Self) {
        self::u8::to_i8(s)
    }
}

impl FromSample<u16> for i8 {
    fn from_sample_(s: u16) -> (r: Self) {
        self::u16::to_i8(s)
    }
}

impl FromSample<U24> for i8 {
    fn from_sample_(s: U24) -> (r: Self) {
        self::u24::to_i8(s)
    }
}

impl FromSample<u32> for i8 {
    fn from_sample_(s: u32) -> (r: Self) {
        self::u32::to_i8(s)
    }
}

impl FromSample<U48> for i8 {
    fn from_sample_(s: U48) -> (r: Self) {
        self::u48::to_i8(s)
    }
}

impl FromSample<u64> for i8 {
    fn from_sample_(s: u64) -> (r: Self) {
        self::u64::to_i8(s)
    }
}

impl FromSample<i8> for i16 {
    fn from_sample_(s: i8) -> (r: Self) {
        self::i8::to_i16(s)
    }
}

impl FromSample<I24> for i16 {
    fn from_sample_(s: I24) -> (r: Self) {
        self::i24::to_i16(s)
    }
}

impl FromSample<i32> for i16 {
    fn from_sample_(s: i32) -> (r: Self) {
        self::i32::to_i16(s)
    }
}

impl FromSample<I48> for i16 {
    fn from_sample_(s: I48) -> (r: Self) {
        self::i48::to_i16(s)
    }
}

impl FromSample<i64> for i16 {
    fn from_sample_(s: i64) -> (r: Self) {
        self::i64::to_i16(s)
    }
}

impl FromSample<u8> for i16 {
    fn from_sample_(s: u8) -> (r: Self) {
        self::u8::to_i16(s)
    }
}

impl FromSample<u16> for i16 {
    fn from_sample_(s: u16) -> (r: Self) {
        self::u16::to_i16(s)
    }
}

impl FromSample<U24> for i16 {
    fn from_sample_(s: U24) -> (r: Self) {
        self::u24::to_i16(s)
    }
}

impl FromSample<u32> for i16 {
    fn from_sample_(s: u32) -> (r: Self) {
        self::u32::to_i16(s)
    }
}

impl FromSample<U48> for i16 {
    fn from_sample_(s: U48) -> (r: Self) {
        self::u48::to_i16(s)
    }
}

impl FromSample<u64> for i16 {
    fn from_sample_(s: u64) -> (r: Self) {
        self::u64::to_i16(s)
    }
}

impl FromSample<i8> for I24 {
    fn from_sample_(s: i8) -> (r: Self) {
        self::i8::to_i24(s)
    }
}

impl FromSample<i16> for I24 {
    fn from_sample_(s: i16) -> (r: Self) {
        self::i16::to_i24(s)
    }
}

impl FromSample<i32> for I24 {
    fn from_sample_(s: i32) -> (r: Self) {
        self::i32::to_i24(s)
    }
}

impl FromSample<I48> for I24 {
    fn from_sample_(s: I48) -> (r: Self) {
        self::i48::to_i24(s)
    }
}

impl FromSample<i64> for I24 {
    fn from_sample_(s: i64) -> (r: Self) {
        self::i64::to_i24(s)
    }
}

impl FromSample<u8> for I24 {
    fn from_sample_(s: u8) -> (r: Self) {
        self::u8::to_i24(s)
    }
}

impl FromSample<u16> for I24 {
    fn from_sample_(s: u16) -> (r: Self) {
        self::u16::to_i24(s)
    }
}

impl FromSample<U24> for I24 {
    fn from_sample_(s: U24) -> (r: Self) {
        self::u24::to_i24(s)
    }
}

impl FromSample<u32> for I24 {
    fn from_sample_(s: u32) -> (r: Self) {
        self::u32::to_i24(s)
    }
}

impl FromSample<U48> for I24 {
    fn from_sample_(s: U48) -> (r: Self) {
        self::u48::to_i24(s)
    }
}

impl FromSample<u64> for I24 {
    fn from_sample_(s: u64) -> (r: Self) {
        self::u64::to_i24(s)
    }
}

impl FromSample<i8> for i32 {
    fn from_sample_(s: i8) -> (r: Self) {
        self::i8::to_i32(s)
    }
}

impl FromSample<i16> for i32 {
    fn from_sample_(s: i16) -> (r: Self) {
        self::i16::to_i32(s)
    }
}

impl FromSample<I24> for i32 {
    fn from_sample_(s: I24) -> (r: Self) {
        self::i24::to_i32(s)
    }
}

impl FromSample<I48> for i32 {
    fn from_sample_(s: I48) -> (r: Self) {
        self::i48::to_i32(s)
    }
}

impl FromSample<i64> for i32 {
    fn from_sample_(s: i64) -> (r: Self) {
        self::i64::to_i32(s)
    }
}

impl FromSample<u8> for i32 {
    fn from_sample_(s: u8) -> (r: Self) {
        self::u8::to_i32(s)
    }
}

impl FromSample<u16> for i32 {
    fn from_sample_(s: u16) -> (r: Self) {
        self::u16::to_i32(s)
    }
}

impl FromSample<U24> for i32 {
    fn from_sample_(s: U24) -> (r: Self) {
        self::u24::to_i32(s)
    }
}

impl FromSample<u32> for i32 {
    fn from_sample_(s: u32) -> (r: Self) {
        self::u32::to_i32(s)
    }
}

impl FromSample<U48> for i32 {
    fn from_sample_(s: U48) -> (r: Self) {
        self::u48::to_i32(s)
    }
}

impl FromSample<u64> for i32 {
    fn from_sample_(s: u64) -> (r: Self) {
        self::u64::to_i32(s)
    }
}

impl FromSample<i8> for I48 {
    fn from_sample_(s: i8) -> (r: Self) {
        self::i8::to_i48(s)
    }
}

impl FromSample<i16> for I48 {
    fn from_sample_(s: i16) -> (r: Self) {
        self::i16::to_i48(s)
    }
}

impl FromSample<I24> for I48 {
    fn from_sample_(s: I24) -> (r: Self) {
        self::i24::to_i48(s)
    }
}

impl FromSample<i32> for I48 {
    fn from_sample_(s: i32) -> (r: Self) {
        self::i32::to_i48(s)
    }
}

impl FromSample<i64> for I48 {
    fn from_sample_(s: i64) -> (r: Self) {
        self::i64::to_i48(s)
    }
}

impl FromSample<u8> for I48 {
    fn from_sample_(s: u8) -> (r: Self) {
        self::u8::to_i48(s)
    }
}

impl FromSample<u16> for I48 {
    fn from_sample_(s: u16) -> (r: Self) {
        self::u16::to_i48(s)
    }
}

impl FromSample<U24> for I48 {
    fn from_sample_(s: U24) -> (r: Self) {
        self::u24::to_i48(s)
    }
}

impl FromSample<u32> for I48 {
    fn from_sample_(s: u32) -> (r: Self) {
        self::u32::to_i48(s)
    }
}

impl FromSample<U48> for I48 {
    fn from_sample_(s: U48) -> (r: Self) {
        self::u48::to_i48(s)
    }
}

impl FromSample<u64> for I48 {
    fn from_sample_(s: u64) -> (r: Self) {
        self::u64::to_i48(s)
    }
}

impl FromSample<i8> for i64 {
    fn from_sample_(s: i8) -> (r: Self) {
        self::i8::to_i64(s)
    }
}

impl FromSample<i16> for i64 {
    fn from_sample_(s: i16) -> (r: Self) {
        self::i16::to_i64(s)
    }
}

impl FromSample<I24> for i64 {
    fn from_sample_(s: I24) -> (r: Self) {
        self::i24::to_i64(s)
    }
}

impl FromSample<i32> for i64 {
    fn from_sample_(s: i32) -> (r: Self) {
        self::i32::to_i64(s)
    }
}

impl FromSample<I48> for i64 {
    fn from_sample_(s: I48) -> (r: Self) {
        self::i48::to_i64(s)
    }
}

impl FromSample<u8> for i64 {
    fn from_sample_(s: u8) -> (r: Self) {
        self::u8::to_i64(s)
    }
}

impl FromSample<u16> for i64 {
    fn from_sample_(s: u16) -> (r: Self) {
        self::u16::to_i64(s)
    }
}

impl FromSample<U24> for i64 {
    fn from_sample_(s: U24) -> (r: Self) {
        self::u24::to_i64(s)
    }
}

impl FromSample<u32> for i64 {
    fn from_sample_(s: u32) -> (r: Self) {
        self::u32::to_i64(s)
    }
}

impl FromSample<U48> for i64 {
    fn from_sample_(s: U48) -> (r: Self) {
        self::u48::to_i64(s)
    }
}

impl FromSample<u64> for i64 {
    fn from_sample_(s: u64) -> (r: Self) {
        self::u64::to_i64(s)
    }
}

impl FromSample<i8> for u8 {
    fn from_sample_(s: i8) -> (r: Self) {
        self::i8::to_u8(s)
    }
}

impl FromSample<i16> for u8 {
    fn from_sample_(s: i16) -> (r: Self) {
        self::i16::to_u8(s)
    }
}

impl FromSample<I24> for u8 {
    fn from_sample_(s: I24) -> (r: Self) {
        self::i24::to_u8(s)
    }
}

impl FromSample<i32> for u8 {
    fn from_sample_(s: i32) -> (r: Self) {
        self::i32::to_u8(s)
    }
}

impl FromSample<I48> for u8 {
    fn from_sample_(s: I48) -> (r: Self) {
        self::i48::to_u8(s)
    }
}

impl FromSample<i64> for u8 {
    fn from_sample_(s: i64) -> (r: Self) {
        self::i64::to_u8(s)
    }
}

impl FromSample<u16> for u8 {
    fn from_sample_(s: u16) -> (r: Self) {
        self::u16::to_u8(s)
    }
}

impl FromSample<U24> for u8 {
    fn from_sample_(s: U24) -> (r: Self) {
        self::u24::to_u8(s)
    }
}

impl FromSample<u32> for u8 {
    fn from_sample_(s: u32) -> (r: Self) {
        self::u32::to_u8(s)
    }
}

impl FromSample<U48> for u8 {
    fn from_sample_(s: U48) -> (r: Self) {
        self::u48::to_u8(s)
    }
}

impl FromSample<u64> for u8 {
    fn from_sample_(s: u64) -> (r: Self) {
        self::u64::to_u8(s)
    }
}

impl FromSample<i8> for u16 {
    fn from_sample_(s: i8) -> (r: Self) {
        self::i8::to_u16(s)
    }
}

impl FromSample<i16> for u16 {
    fn from_sample_(s: i16) -> (r: Self) {
        self::i16::to_u16(s)
    }
}

impl FromSample<I24> for u16 {
    fn from_sample_(s: I24) -> (r: Self) {
        self::i24::to_u16(s)
    }
}

impl FromSample<i32> for u16 {
    fn from_sample_(s: i32) -> (r: Self) {
        self::i32::to_u16(s)
    }
}

impl FromSample<I48> for u16 {
    fn from_sample_(s: I48) -> (r: Self) {
        self::i48::to_u16(s)
    }
}

impl FromSample<i64> for u16 {
    fn from_sample_(s: i64) -> (r: Self) {
        self::i64::to_u16(s)
    }
}

impl FromSample<u8> for u16 {
    fn from_sample_(s: u8) -> (r: Self) {
        self::u8::to_u16(s)
    }
}

impl FromSample<U24> for u16 {
    fn from_sample_(s: U24) -> (r: Self) {
        self::u24::to_u16(s)
    }
}

impl FromSample<u32> for u16 {
    fn from_sample_(s: u32) -> (r: Self) {
        self::u32::to_u16(s)
    }
}

impl FromSample<U48> for u16 {
    fn from_sample_(s: U48) -> (r: Self) {
        self::u48::to_u16(s)
    }
}

impl FromSample<u64> for u16 {
    fn from_sample_(s: u64) -> (r: Self) {
        self::u64::to_u16(s)
    }
}

impl FromSample<i8> for U24 {
    fn from_sample_(s: i8) -> (r: Self) {
        self::i8::to_u24(s)
    }
}

impl FromSample<i16> for U24 {
    fn from_sample_(s: i16) -> (r: Self) {
        self::i16::to_u24(s)
    }
}

impl FromSample<I24> for U24 {
    fn from_sample_(s: I24) -> (r: Self) {
        self::i24::to_u24(s)
    }
}

impl FromSample<i32> for U24 {
    fn from_sample_(s: i32) -> (r: Self) {
        self::i32::to_u24(s)
    }
}

impl FromSample<I48> for U24 {
    fn from_sample_(s: I48) -> (r: Self) {
        self::i48::to_u24(s)
    }
}

impl FromSample<i64> for U24 {
    fn from_sample_(s: i64) -> (r: Self) {
        self::i64::to_u24(s)
    }
}

impl FromSample<u8> for U24 {
    fn from_sample_(s: u8) -> (r: Self) {
        self::u8::to_u24(s)
    }
}

impl FromSample<u16> for U24 {
    fn from_sample_(s: u16) -> (r: Self) {
        self::u16::to_u24(s)
    }
}

impl FromSample<u32> for U24 {
    fn from_sample_(s: u32) -> (r: Self) {
        self::u32::to_u24(s)
    }
}

impl FromSample<U48> for U24 {
    fn from_sample_(s: U48) -> (r: Self) {
        self::u48::to_u24(s)
    }
}

impl FromSample<u64> for U24 {
    fn from_sample_(s: u64) -> (r: Self) {
        self::u64::to_u24(s)
    }
}

impl FromSample<i8> for u32 {
    fn from_sample_(s: i8) -> (r: Self) {
        self::i8::to_u32(s)
    }
}

impl FromSample<i16> for u32 {
    fn from_sample_(s: i16) -> (r: Self) {
        self::i16::to_u32(s)
    }
}

impl FromSample<I24> for u32 {
    fn from_sample_(s: I24) -> (r: Self) {
        self::i24::to_u32(s)
    }
}

impl FromSample<i32> for u32 {
    fn from_sample_(s: i32) -> (r: Self) {
        self::i32::to_u32(s)
    }
}

impl FromSample<I48> for u32 {
    fn from_sample_(s: I48) -> (r: Self) {
        self::i48::to_u32(s)
    }
}

impl FromSample<i64> for u32 {
    fn from_sample_(s: i64) -> (r: Self) {
        self::i64::to_u32(s)
    }
}

impl FromSample<u8> for u32 {
    fn from_sample_(s: u8) -> (r: Self) {
        self::u8::to_u32(s)
    }
}

impl FromSample<u16> for u32 {
    fn from_sample_(s: u16) -> (r: Self) {
        self::u16::to_u32(s)
    }
}

impl FromSample<U24> for u32 {
    fn from_sample_(s: U24) -> (r: Self) {
        self::u24::to_u32(s)
    }
}

impl FromSample<U48> for u32 {
    fn from_sample_(s: U48) -> (r: Self) {
        self::u48::to_u32(s)
    }
}

impl FromSample<u64> for u32 {
    fn from_sample_(s: u64) -> (r: Self) {
        self::u64::to_u32(s)
    }
}

impl FromSample<i8> for U48 {
    fn from_sample_(s: i8) -> (r: Self) {
        self::i8::to_u48(s)
    }
}

impl FromSample<i16> for U48 {
    fn from_sample_(s: i16) -> (r: Self) {
        self::i16::to_u48(s)
    }
}

impl FromSample<I24> for U48 {
    fn from_sample_(s: I24) -> (r: Self) {
        self::i24::to_u48(s)
    }
}

impl FromSample<i32> for U48 {
    fn from_sample_(s: i32) -> (r: Self) {
        self::i32::to_u48(s)
    }
}

impl FromSample<I48> for U48 {
    fn from_sample_(s: I48) -> (r: Self) {
        self::i48::to_u48(s)
    }
}

impl FromSample<i64> for U48 {
    fn from_sample_(s: i64) -> (r: Self) {
        self::i64::to_u48(s)
    }
}

impl FromSample<u8> for U48 {
    fn from_sample_(s: u8) -> (r: Self) {
        self::u8::to_u48(s)
    }
}

impl FromSample<u16> for U48 {
    fn from_sample_(s: u16) -> (r: Self) {
        self::u16::to_u48(s)
    }
}

impl FromSample<U24> for U48 {
    fn from_sample_(s: U24) -> (r: Self) {
        self::u24::to_u48(s)
    }
}

impl FromSample<u32> for U48 {
    fn from_sample_(s: u32) -> (r: Self) {
        self::u32::to_u48(s)
    }
}

impl FromSample<u64> for U48 {
    fn from_sample_(s: u64) -> (r: Self) {
        self::u64::to_u48(s)
    }
}

impl FromSample<i8> for u64 {
    fn from_sample_(s: i8) -> (r: Self) {
        self::i8::to_u64(s)
    }
}

impl FromSample<i16> for u64 {
    fn from_sample_(s: i16) -> (r: Self) {
        self::i16::to_u64(s)
    }
}

impl FromSample<I24> for u64 {
    fn from_sample_(s: I24) -> (r: Self) {
        self::i24::to_u64(s)
    }
}

impl FromSample<i32> for u64 {
    fn from_sample_(s: i32) -> (r: Self) {
        self::i32::to_u64(s)
    }
}

impl FromSample<I48> for u64 {
    fn from_sample_(s: I48) -> (r: Self) {
        self::i48::to_u64(s)
    }
}

impl FromSample<i64> for u64 {
    fn from_sample_(s: i64) -> (r: Self) {
        self::i64::to_u64(s)
    }
}

impl FromSample<u8> for u64 {
    fn from_sample_(s: u8) -> (r: Self) {
        self::u8::to_u64(s)
    }
}

impl FromSample<u16> for u64 {
    fn from_sample_(s: u16) -> (r: Self) {
        self::u16::to_u64(s)
    }
}

impl FromSample<U24> for u64 {
    fn from_sample_(s: U24) -> (r: Self) {
        self::u24::to_u64(s)
    }
}

impl FromSample<u32> for u64 {
    fn from_sample_(s: u32) -> (r: Self) {
        self::u32::to_u64(s)
    }
}

impl FromSample<U48> for u64 {
    fn from_sample_(s: U48) -> (r: Self) {
        self::u48::to_u64(s)
    }
}

} // verus!

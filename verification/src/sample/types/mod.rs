//! A collection of custom, non-std **Sample** types.
//!
//! Most types here are "padded": they store their value in the smallest primitive integer that
//! can contain it. `I24`, for example, is a newtype around an `i32`.
//!
//! The `*LE3` and `*BE3` types are the "packed" counterparts: a 24-bit value stored in exactly
//! three bytes with an alignment of one, in the given byte order regardless of the byte order of
//! the host. These correspond to the `S24_3LE`, `S24_3BE`, `U24_3LE` and `U24_3BE` formats.
//!
//! Out-of-range values behave differently for the two kinds: a padded type keeps an out-of-range
//! value verbatim in its container, while a packed type has nowhere to put it and wraps it modulo
//! 2^24.

pub mod i11;
pub mod i20;
pub mod i24;
pub mod i24_be3;
pub mod i24_le3;
pub mod i48;
pub mod u11;
pub mod u20;
pub mod u24;
pub mod u24_be3;
pub mod u24_le3;
pub mod u48;
mod order;

pub use self::i11::I11;
pub use self::i20::I20;
pub use self::i24::I24;
pub use self::i24_be3::I24BE3;
pub use self::i24_le3::I24LE3;
pub use self::i48::I48;
pub use self::u11::U11;
pub use self::u20::U20;
pub use self::u24::U24;
pub use self::u24_be3::U24BE3;
pub use self::u24_le3::U24LE3;
pub use self::u48::U48;

use vstd::prelude::*;

verus! {

/// The low three bytes of `v`, with the top one read as signed, hold `v` reduced modulo 2^24
/// into `-8_388_608..=8_388_607`.
pub proof fn lemma_split_signed(v: i32)
    ensures
        65_536 * ((v >> 16) as i8) as int + 256 * ((v >> 8) as u8) as int + (v as u8) as int
            == (v as int + 8_388_608) % 16_777_216 - 8_388_608,
{
    let hi = (v >> 16) as i8;
    let mid = (v >> 8) as u8;
    let lo = v as u8;
    let t: i64 = (((v as i64) + 8_388_608) as i64) >> 24;
    assert((v as i64) == ((((v as i64) + 8_388_608) as i64) >> 24) * 16_777_216 + 65_536 * ((
    (v >> 16) as i8) as i64) + 256 * (((v >> 8) as u8) as i64) + ((v as u8) as i64))
        by (bit_vector);
    vstd::arithmetic::div_mod::lemma_fundamental_div_mod_converse(
        v as int + 8_388_608,
        16_777_216,
        t as int,
        65_536 * hi as int + 256 * mid as int + lo as int + 8_388_608,
    );
}

/// The low three bytes of `v` hold `v` reduced modulo 2^24.
pub proof fn lemma_split_unsigned(v: i32)
    ensures
        65_536 * ((v >> 16) as u8) as int + 256 * ((v >> 8) as u8) as int + (v as u8) as int
            == v as int % 16_777_216,
{
    let hi = (v >> 16) as u8;
    let mid = (v >> 8) as u8;
    let lo = v as u8;
    let t: i64 = (v as i64) >> 24;
    assert((v as i64) == ((v as i64) >> 24) * 16_777_216 + 65_536 * (((v >> 16) as u8) as i64)
        + 256 * (((v >> 8) as u8) as i64) + ((v as u8) as i64)) by (bit_vector);
    vstd::arithmetic::div_mod::lemma_fundamental_div_mod_converse(
        v as int,
        16_777_216,
        t as int,
        65_536 * hi as int + 256 * mid as int + lo as int,
    );
}

/// A signed 24-bit value, taken modulo 2^24 and wrapped back into the signed range, is itself.
pub proof fn lemma_mod_wrap_signed(v: int)
    requires
        -8_388_608 <= v <= 8_388_607,
    ensures
        ((v % 16_777_216) + 8_388_608) % 16_777_216 - 8_388_608 == v,
{
    if v >= 0 {
        vstd::arithmetic::div_mod::lemma_small_mod(v as nat, 16_777_216);
        vstd::arithmetic::div_mod::lemma_small_mod((v + 8_388_608) as nat, 16_777_216);
    } else {
        vstd::arithmetic::div_mod::lemma_fundamental_div_mod_converse(
            v,
            16_777_216,
            -1,
            v + 16_777_216,
        );
        vstd::arithmetic::div_mod::lemma_fundamental_div_mod_converse(
            v + 16_777_216 + 8_388_608,
            16_777_216,
            1,
            v + 8_388_608,
        );
    }
}

/// An unsigned 24-bit value, taken modulo 2^24 twice, is itself.
pub proof fn lemma_mod_wrap_unsigned(v: int)
    requires
        0 <= v <= 16_777_215,
    ensures
        (v % 16_777_216) % 16_777_216 == v,
{
    vstd::arithmetic::div_mod::lemma_small_mod(v as nat, 16_777_216);
}

} // verus!

//! Arithmetic right shifts as rounded-down division.

use vstd::prelude::*;

verus! {

/// Shifting an `i16` right by 8 bits divides it by 2^8, rounding down.
pub proof fn shr_i16_8(x: i16)
    ensures
        (x >> 8) as int == x as int / 256,
{
    assert(x == (x >> 8) * 256 + (x & 255) && 0 <= (x & 255) <= 255)
        by (bit_vector);
    vstd::arithmetic::div_mod::lemma_fundamental_div_mod_converse(
        x as int,
        256,
        (x >> 8) as int,
        (x & 255) as int,
    );
}

/// Shifting an `i32` right by 8 bits divides it by 2^8, rounding down.
pub proof fn shr_i32_8(x: i32)
    ensures
        (x >> 8) as int == x as int / 256,
{
    assert(x == (x >> 8) * 256 + (x & 255) && 0 <= (x & 255) <= 255)
        by (bit_vector);
    vstd::arithmetic::div_mod::lemma_fundamental_div_mod_converse(
        x as int,
        256,
        (x >> 8) as int,
        (x & 255) as int,
    );
}

/// Shifting an `i32` right by 16 bits divides it by 2^16, rounding down.
pub proof fn shr_i32_16(x: i32)
    ensures
        (x >> 16) as int == x as int / 65_536,
{
    assert(x == (x >> 16) * 65_536 + (x & 65_535) && 0 <= (x & 65_535) <= 65_535)
        by (bit_vector);
    vstd::arithmetic::div_mod::lemma_fundamental_div_mod_converse(
        x as int,
        65_536,
        (x >> 16) as int,
        (x & 65_535) as int,
    );
}

/// Shifting an `i32` right by 24 bits divides it by 2^24, rounding down.
pub proof fn shr_i32_24(x: i32)
    ensures
        (x >> 24) as int == x as int / 16_777_216,
{
    assert(x == (x >> 24) * 16_777_216 + (x & 16_777_215) && 0 <= (x & 16_777_215) <= 16_777_215)
        by (bit_vector);
    vstd::arithmetic::div_mod::lemma_fundamental_div_mod_converse(
        x as int,
        16_777_216,
        (x >> 24) as int,
        (x & 16_777_215) as int,
    );
}

/// Shifting an `i64` right by 16 bits divides it by 2^16, rounding down.
pub proof fn shr_i64_16(x: i64)
    ensures
        (x >> 16) as int == x as int / 65_536,
{
    assert(x == (x >> 16) * 65_536 + (x & 65_535) && 0 <= (x & 65_535) <= 65_535)
        by (bit_vector);
    vstd::arithmetic::div_mod::lemma_fundamental_div_mod_converse(
        x as int,
        65_536,
        (x >> 16) as int,
        (x & 65_535) as int,
    );
}

/// Shifting an `i64` right by 24 bits divides it by 2^24, rounding down.
pub proof fn shr_i64_24(x: i64)
    ensures
        (x >> 24) as int == x as int / 16_777_216,
{
    assert(x == (x >> 24) * 16_777_216 + (x & 16_777_215) && 0 <= (x & 16_777_215) <= 16_777_215)
        by (bit_vector);
    vstd::arithmetic::div_mod::lemma_fundamental_div_mod_converse(
        x as int,
        16_777_216,
        (x >> 24) as int,
        (x & 16_777_215) as int,
    );
}

/// Shifting an `i64` right by 32 bits divides it by 2^32, rounding down.
pub proof fn shr_i64_32(x: i64)
    ensures
        (x >> 32) as int == x as int / 4_294_967_296,
{
    assert(x == (x >> 32) * 4_294_967_296 + (x & 4_294_967_295) && 0 <= (x & 4_294_967_295) <= 4_294_967_295)
        by (bit_vector);
    vstd::arithmetic::div_mod::lemma_fundamental_div_mod_converse(
        x as int,
        4_294_967_296,
        (x >> 32) as int,
        (x & 4_294_967_295) as int,
    );
}

/// Shifting an `i64` right by 40 bits divides it by 2^40, rounding down.
pub proof fn shr_i64_40(x: i64)
    ensures
        (x >> 40) as int == x as int / 1_099_511_627_776,
{
    assert(x == (x >> 40) * 1_099_511_627_776 + (x & 1_099_511_627_775) && 0 <= (x & 1_099_511_627_775) <= 1_099_511_627_775)
        by (bit_vector);
    vstd::arithmetic::div_mod::lemma_fundamental_div_mod_converse(
        x as int,
        1_099_511_627_776,
        (x >> 40) as int,
        (x & 1_099_511_627_775) as int,
    );
}

/// Shifting an `i64` right by 48 bits divides it by 2^48, rounding down.
pub proof fn shr_i64_48(x: i64)
    ensures
        (x >> 48) as int == x as int / 281_474_976_710_656,
{
    assert(x == (x >> 48) * 281_474_976_710_656 + (x & 281_474_976_710_655) && 0 <= (x & 281_474_976_710_655) <= 281_474_976_710_655)
        by (bit_vector);
    vstd::arithmetic::div_mod::lemma_fundamental_div_mod_converse(
        x as int,
        281_474_976_710_656,
        (x >> 48) as int,
        (x & 281_474_976_710_655) as int,
    );
}

/// Shifting an `i64` right by 56 bits divides it by 2^56, rounding down.
pub proof fn shr_i64_56(x: i64)
    ensures
        (x >> 56) as int == x as int / 72_057_594_037_927_936,
{
    assert(x == (x >> 56) * 72_057_594_037_927_936 + (x & 72_057_594_037_927_935) && 0 <= (x & 72_057_594_037_927_935) <= 72_057_594_037_927_935)
        by (bit_vector);
    vstd::arithmetic::div_mod::lemma_fundamental_div_mod_converse(
        x as int,
        72_057_594_037_927_936,
        (x >> 56) as int,
        (x & 72_057_594_037_927_935) as int,
    );
}

/// Shifting an `u16` right by 8 bits divides it by 2^8, rounding down.
pub proof fn shr_u16_8(x: u16)
    ensures
        (x >> 8) as int == x as int / 256,
{
    assert(x == (x >> 8) * 256 + (x & 255) && 0 <= (x & 255) <= 255)
        by (bit_vector);
    vstd::arithmetic::div_mod::lemma_fundamental_div_mod_converse(
        x as int,
        256,
        (x >> 8) as int,
        (x & 255) as int,
    );
}

/// Shifting an `u32` right by 8 bits divides it by 2^8, rounding down.
pub proof fn shr_u32_8(x: u32)
    ensures
        (x >> 8) as int == x as int / 256,
{
    assert(x == (x >> 8) * 256 + (x & 255) && 0 <= (x & 255) <= 255)
        by (bit_vector);
    vstd::arithmetic::div_mod::lemma_fundamental_div_mod_converse(
        x as int,
        256,
        (x >> 8) as int,
        (x & 255) as int,
    );
}

/// Shifting an `u32` right by 16 bits divides it by 2^16, rounding down.
pub proof fn shr_u32_16(x: u32)
    ensures
        (x >> 16) as int == x as int / 65_536,
{
    assert(x == (x >> 16) * 65_536 + (x & 65_535) && 0 <= (x & 65_535) <= 65_535)
        by (bit_vector);
    vstd::arithmetic::div_mod::lemma_fundamental_div_mod_converse(
        x as int,
        65_536,
        (x >> 16) as int,
        (x & 65_535) as int,
    );
}

/// Shifting an `u32` right by 24 bits divides it by 2^24, rounding down.
pub proof fn shr_u32_24(x: u32)
    ensures
        (x >> 24) as int == x as int / 16_777_216,
{
    assert(x == (x >> 24) * 16_777_216 + (x & 16_777_215) && 0 <= (x & 16_777_215) <= 16_777_215)
        by (bit_vector);
    vstd::arithmetic::div_mod::lemma_fundamental_div_mod_converse(
        x as int,
        16_777_216,
        (x >> 24) as int,
        (x & 16_777_215) as int,
    );
}

/// Shifting an `u64` right by 16 bits divides it by 2^16, rounding down.
pub proof fn shr_u64_16(x: u64)
    ensures
        (x >> 16) as int == x as int / 65_536,
{
    assert(x == (x >> 16) * 65_536 + (x & 65_535) && 0 <= (x & 65_535) <= 65_535)
        by (bit_vector);
    vstd::arithmetic::div_mod::lemma_fundamental_div_mod_converse(
        x as int,
        65_536,
        (x >> 16) as int,
        (x & 65_535) as int,
    );
}

/// Shifting an `u64` right by 32 bits divides it by 2^32, rounding down.
pub proof fn shr_u64_32(x: u64)
    ensures
        (x >> 32) as int == x as int / 4_294_967_296,
{
    assert(x == (x >> 32) * 4_294_967_296 + (x & 4_294_967_295) && 0 <= (x & 4_294_967_295) <= 4_294_967_295)
        by (bit_vector);
    vstd::arithmetic::div_mod::lemma_fundamental_div_mod_converse(
        x as int,
        4_294_967_296,
        (x >> 32) as int,
        (x & 4_294_967_295) as int,
    );
}

/// Shifting an `u64` right by 40 bits divides it by 2^40, rounding down.
pub proof fn shr_u64_40(x: u64)
    ensures
        (x >> 40) as int == x as int / 1_099_511_627_776,
{
    assert(x == (x >> 40) * 1_099_511_627_776 + (x & 1_099_511_627_775) && 0 <= (x & 1_099_511_627_775) <= 1_099_511_627_775)
        by (bit_vector);
    vstd::arithmetic::div_mod::lemma_fundamental_div_mod_converse(
        x as int,
        1_099_511_627_776,
        (x >> 40) as int,
        (x & 1_099_511_627_775) as int,
    );
}

/// Shifting an `u64` right by 48 bits divides it by 2^48, rounding down.
pub proof fn shr_u64_48(x: u64)
    ensures
        (x >> 48) as int == x as int / 281_474_976_710_656,
{
    assert(x == (x >> 48) * 281_474_976_710_656 + (x & 281_474_976_710_655) && 0 <= (x & 281_474_976_710_655) <= 281_474_976_710_655)
        by (bit_vector);
    vstd::arithmetic::div_mod::lemma_fundamental_div_mod_converse(
        x as int,
        281_474_976_710_656,
        (x >> 48) as int,
        (x & 281_474_976_710_655) as int,
    );
}

/// Shifting an `u64` right by 56 bits divides it by 2^56, rounding down.
pub proof fn shr_u64_56(x: u64)
    ensures
        (x >> 56) as int == x as int / 72_057_594_037_927_936,
{
    assert(x == (x >> 56) * 72_057_594_037_927_936 + (x & 72_057_594_037_927_935) && 0 <= (x & 72_057_594_037_927_935) <= 72_057_594_037_927_935)
        by (bit_vector);
    vstd::arithmetic::div_mod::lemma_fundamental_div_mod_converse(
        x as int,
        72_057_594_037_927_936,
        (x >> 56) as int,
        (x & 72_057_594_037_927_935) as int,
    );
}

} // verus!

//! Tests for the packed 24-bit sample types: their layout, their byte order, their ordering and
//! their conversions.

use dasp::sample::types::{self, i24_be3, i24_le3, u24_be3, u24_le3, I20, U20};
use dasp::sample::{Sample, I24, I24BE3, I24LE3, I48, U24, U24BE3, U24LE3, U48};
use std::mem;

#[test]
fn from_and_neg_match_the_padded_types() {
    assert_eq!(I24LE3::from(3i8).inner(), I24::from(3i8).inner());
    assert_eq!(I24LE3::from(3i16).inner(), I24::from(3i16).inner());
    assert_eq!(I24LE3::from(3i32).inner(), I24::from(3i32).inner());
    assert_eq!(I24LE3::from(3u8).inner(), I24::from(3u8).inner());
    assert_eq!(I24LE3::from(3u16).inner(), I24::from(3u16).inner());
    assert_eq!(I24LE3::from(I20::new_unchecked(3)).inner(), 3);
    assert_eq!(I24LE3::from(U20::new_unchecked(3)).inner(), 3);
    assert_eq!(I24BE3::from(3i16).inner(), 3);

    assert_eq!(U24LE3::from(3u8).inner(), U24::from(3u8).inner());
    assert_eq!(U24LE3::from(3u16).inner(), U24::from(3u16).inner());
    assert_eq!(U24BE3::from(3u16).inner(), 3);
    assert_eq!(U24LE3::from(U20::new_unchecked(3)).inner(), 3);

    assert_eq!(
        I24LE3::from(8_388_608i32).inner(),
        I24::from(8_388_608i32).inner()
    );

    assert_eq!((-I24LE3::new_unchecked(5)).inner(), -5);
    assert_eq!((-I24BE3::new_unchecked(5)).inner(), -5);
    assert_eq!((-i24_le3::min()).inner(), i24_le3::min().inner());

    assert_eq!(I48::from(I24LE3::new_unchecked(-7)).inner(), -7);
    assert_eq!(I48::from(I24BE3::new_unchecked(-7)).inner(), -7);
    assert_eq!(I48::from(U24LE3::new_unchecked(7)).inner(), 7);
    assert_eq!(U48::from(U24LE3::new_unchecked(7)).inner(), 7);
    assert_eq!(U48::from(U24BE3::new_unchecked(7)).inner(), 7);
}

#[test]
fn overflow_wraps_in_release() {
    assert_eq!(
        (i24_le3::max() + I24LE3::new_unchecked(1)).inner(),
        -8_388_608
    );
    assert_eq!(
        (i24_le3::max() + I24LE3::new_unchecked(1)).inner(),
        (types::i24::max() + I24::new_unchecked(1)).inner()
    );
}

#[test]
fn layout() {
    assert_eq!(mem::size_of::<I24LE3>(), 3);
    assert_eq!(mem::size_of::<I24BE3>(), 3);
    assert_eq!(mem::size_of::<U24LE3>(), 3);
    assert_eq!(mem::size_of::<U24BE3>(), 3);

    assert_eq!(mem::align_of::<I24LE3>(), 1);
    assert_eq!(mem::align_of::<I24BE3>(), 1);
    assert_eq!(mem::align_of::<U24LE3>(), 1);
    assert_eq!(mem::align_of::<U24BE3>(), 1);
}

#[test]
fn byte_order() {
    let n = 0x123456;
    assert_eq!(I24LE3::new_unchecked(n).to_bytes(), [0x56, 0x34, 0x12]);
    assert_eq!(I24BE3::new_unchecked(n).to_bytes(), [0x12, 0x34, 0x56]);
    assert_eq!(U24LE3::new_unchecked(n).to_bytes(), [0x56, 0x34, 0x12]);
    assert_eq!(U24BE3::new_unchecked(n).to_bytes(), [0x12, 0x34, 0x56]);

    assert_eq!(I24LE3::from_bytes([0x56, 0x34, 0x12]).inner(), 0x123456);
    assert_eq!(I24BE3::from_bytes([0x12, 0x34, 0x56]).inner(), 0x123456);
    assert_eq!(U24LE3::from_bytes([0x56, 0x34, 0x12]).inner(), 0x123456);
    assert_eq!(U24BE3::from_bytes([0x12, 0x34, 0x56]).inner(), 0x123456);
}

#[test]
fn sign_extension() {
    assert_eq!(I24LE3::from_bytes([0x00, 0x00, 0x80]).inner(), -8_388_608);
    assert_eq!(I24BE3::from_bytes([0x80, 0x00, 0x00]).inner(), -8_388_608);
    assert_eq!(I24LE3::from_bytes([0xFF, 0xFF, 0xFF]).inner(), -1);
    assert_eq!(I24BE3::from_bytes([0xFF, 0xFF, 0xFF]).inner(), -1);

    assert_eq!(U24LE3::from_bytes([0x00, 0x00, 0x80]).inner(), 8_388_608);
    assert_eq!(U24BE3::from_bytes([0x80, 0x00, 0x00]).inner(), 8_388_608);
    assert_eq!(U24LE3::from_bytes([0xFF, 0xFF, 0xFF]).inner(), 16_777_215);
    assert_eq!(U24BE3::from_bytes([0xFF, 0xFF, 0xFF]).inner(), 16_777_215);
}

#[test]
fn consts() {
    assert_eq!(i24_le3::min().inner(), -8_388_608);
    assert_eq!(i24_le3::max().inner(), 8_388_607);
    assert_eq!(i24_le3::equilibrium().inner(), 0);
    assert_eq!(i24_be3::min().inner(), -8_388_608);
    assert_eq!(i24_be3::max().inner(), 8_388_607);
    assert_eq!(i24_be3::equilibrium().inner(), 0);

    assert_eq!(u24_le3::min().inner(), 0);
    assert_eq!(u24_le3::max().inner(), 16_777_215);
    assert_eq!(u24_le3::equilibrium().inner(), 8_388_608);
    assert_eq!(u24_be3::min().inner(), 0);
    assert_eq!(u24_be3::max().inner(), 16_777_215);
    assert_eq!(u24_be3::equilibrium().inner(), 8_388_608);

    assert_eq!(<I24LE3 as Sample>::equilibrium(), i24_le3::equilibrium());
    assert_eq!(<I24BE3 as Sample>::equilibrium(), i24_be3::equilibrium());
    assert_eq!(<U24LE3 as Sample>::equilibrium(), u24_le3::equilibrium());
    assert_eq!(<U24BE3 as Sample>::equilibrium(), u24_be3::equilibrium());

    assert_eq!(I24LE3::from(<I24 as Sample>::equilibrium()), i24_le3::equilibrium());
    assert_eq!(U24BE3::from(<U24 as Sample>::equilibrium()), u24_be3::equilibrium());
}

#[test]
fn new_checks_range() {
    assert!(I24LE3::new(-8_388_609).is_none());
    assert!(I24LE3::new(8_388_608).is_none());
    assert_eq!(I24LE3::new(-8_388_608), Some(i24_le3::min()));
    assert_eq!(I24LE3::new(8_388_607), Some(i24_le3::max()));

    assert!(U24BE3::new(-1).is_none());
    assert!(U24BE3::new(16_777_216).is_none());
    assert_eq!(U24BE3::new(0), Some(u24_be3::min()));
    assert_eq!(U24BE3::new(16_777_215), Some(u24_be3::max()));
}

/// Float amplitudes are scaled to the 24-bit range here, as a float-to-sample conversion does,
/// and the library is handed the resulting integer.
#[test]
fn out_of_range_wraps() {
    assert_eq!(I24LE3::new_unchecked(8_388_608).inner(), -8_388_608);
    assert_eq!(I24LE3::new_unchecked(-8_388_609).inner(), 8_388_607);
    assert_eq!(I24BE3::new_unchecked(8_388_608).inner(), -8_388_608);
    assert_eq!(U24LE3::new_unchecked(16_777_216).inner(), 0);
    assert_eq!(U24BE3::new_unchecked(-1).inner(), 16_777_215);

    assert_eq!(I24::from(8_388_608i32).inner(), -8_388_608);
    assert_eq!(I24::new_unchecked(8_388_608).inner(), 8_388_608);

    let scaled = (1.0f32 * 8_388_608.0) as i32;
    assert_eq!(I24::new_unchecked(scaled).inner(), 8_388_608);
    assert_eq!(I24LE3::new_unchecked(scaled).inner(), -8_388_608);
    assert_eq!(U24::from_sample(I24::new_unchecked(scaled)).inner(), 16_777_216);
    assert_eq!(U24LE3::from_sample(I24::new_unchecked(scaled)).inner(), 0);
}

#[test]
fn ordering_is_numeric_not_lexicographic() {
    // Each pair is ordered numerically, while its bytes compare the other way round.
    assert!(i24_le3::min() < i24_le3::equilibrium(), "numeric ordering is wrong");
    assert!(i24_le3::min().to_bytes() > i24_le3::equilibrium().to_bytes());
    assert!(i24_be3::min() < i24_be3::equilibrium(), "numeric ordering is wrong");
    assert!(i24_be3::min().to_bytes() > i24_be3::equilibrium().to_bytes());
    assert!(I24LE3::new_unchecked(-1) < I24LE3::new_unchecked(1), "numeric ordering is wrong");
    assert!(I24LE3::new_unchecked(-1).to_bytes() > I24LE3::new_unchecked(1).to_bytes());
    assert!(I24BE3::new_unchecked(-1) < I24BE3::new_unchecked(1), "numeric ordering is wrong");
    assert!(I24BE3::new_unchecked(-1).to_bytes() > I24BE3::new_unchecked(1).to_bytes());
    assert!(I24LE3::new_unchecked(1) < I24LE3::new_unchecked(256), "numeric ordering is wrong");
    assert!(I24LE3::new_unchecked(1).to_bytes() > I24LE3::new_unchecked(256).to_bytes());
    assert!(U24LE3::new_unchecked(1) < U24LE3::new_unchecked(256), "numeric ordering is wrong");
    assert!(U24LE3::new_unchecked(1).to_bytes() > U24LE3::new_unchecked(256).to_bytes());

    assert!(u24_be3::min() < u24_be3::equilibrium());
    assert!(u24_be3::equilibrium() < u24_be3::max());
    assert!(U24BE3::new_unchecked(1) < U24BE3::new_unchecked(256));

    let a = I24LE3::new_unchecked(42);
    assert_eq!(a.cmp(&a), std::cmp::Ordering::Equal);
    assert_eq!(a, I24LE3::new_unchecked(42));
}

#[test]
fn round_trip_every_value() {
    for v in -8_388_608..=8_388_607i32 {
        assert_eq!(I24LE3::new_unchecked(v).inner(), v);
        assert_eq!(I24BE3::new_unchecked(v).inner(), v);
        assert_eq!(I24::from(I24LE3::new_unchecked(v)).inner(), v);
        assert_eq!(I24::from(I24BE3::new_unchecked(v)).inner(), v);
    }
    for v in 0..=16_777_215i32 {
        assert_eq!(U24LE3::new_unchecked(v).inner(), v);
        assert_eq!(U24BE3::new_unchecked(v).inner(), v);
        assert_eq!(U24::from(U24LE3::new_unchecked(v)).inner(), v);
        assert_eq!(U24::from(U24BE3::new_unchecked(v)).inner(), v);
    }
}

#[test]
fn every_byte_pattern_survives_a_round_trip() {
    for raw in 0..=0xFF_FFFFu32 {
        let bytes = [raw as u8, (raw >> 8) as u8, (raw >> 16) as u8];
        assert_eq!(
            I24LE3::new_unchecked(I24LE3::from_bytes(bytes).inner()).to_bytes(),
            bytes
        );
        assert_eq!(
            I24BE3::new_unchecked(I24BE3::from_bytes(bytes).inner()).to_bytes(),
            bytes
        );
        assert_eq!(
            U24LE3::new_unchecked(U24LE3::from_bytes(bytes).inner()).to_bytes(),
            bytes
        );
        assert_eq!(
            U24BE3::new_unchecked(U24BE3::from_bytes(bytes).inner()).to_bytes(),
            bytes
        );
    }
}

#[test]
fn packed_add_amp_and_signed_match_the_padded_scale() {
    let half = I24LE3::new_unchecked(4_194_304);
    assert_eq!(half.add_amp(I24LE3::new_unchecked(-4_194_304)).inner(), 0);
    let half = U24BE3::new_unchecked(12_582_912);
    assert_eq!(half.to_signed_sample(), 1_073_741_824i32);
    assert_eq!(half.add_amp(-1_073_741_824), u24_be3::equilibrium());
    assert_eq!(I24LE3::new_unchecked(-8_388_608).to_signed_sample(), i24_le3::min());
}

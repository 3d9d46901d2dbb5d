//! Tests of the conversions between sample types.

use dasp::sample::{FromSample, Sample, SignedSample};
use dasp::{I24, I48, U24, U48};

#[test]
fn readme_conversions() {
    assert_eq!(0i32.to_sample::<u32>(), 2_147_483_648);
    assert_eq!(I24::new(0).unwrap(), Sample::from_sample(0i8));
    assert_eq!(0u8.to_sample::<i8>(), -128);
}

#[test]
fn widening_multiplies_and_narrowing_divides() {
    assert_eq!(1i8.to_sample::<i16>(), 256);
    assert_eq!((-1i8).to_sample::<i32>(), -16_777_216);
    assert_eq!(256i16.to_sample::<i8>(), 1);
    assert_eq!(255i16.to_sample::<i8>(), 0);
    assert_eq!((-1i16).to_sample::<i8>(), -1);
    assert_eq!(i16::MAX.to_sample::<u8>(), 255);
    assert_eq!(i16::MIN.to_sample::<u8>(), 0);
    assert_eq!(u16::MAX.to_sample::<i16>(), i16::MAX);
    assert_eq!(1i32.to_sample::<i64>(), 4_294_967_296);
    assert_eq!(I24::new(1).unwrap().to_sample::<i32>(), 256);
    assert_eq!(I48::new(-1).unwrap().to_sample::<i64>(), -65_536);
    assert_eq!(U24::new(0).unwrap().to_sample::<i8>(), -128);
    assert_eq!(U48::new(0).unwrap().to_sample::<u64>(), 0);
}

#[test]
fn widening_then_narrowing_gives_the_sample_back() {
    for v in [i8::MIN, -100, -1, 0, 1, 99, i8::MAX] {
        let wide: i32 = v.to_sample();
        let back: i8 = wide.to_sample();
        assert_eq!(back, v);
        let unsigned: u64 = v.to_sample();
        let back: i8 = i8::from_sample(unsigned);
        assert_eq!(back, v);
    }
}

#[test]
fn equilibrium_and_add_amp() {
    assert_eq!(<u8 as Sample>::equilibrium(), 128);
    assert_eq!(<U24 as Sample>::equilibrium(), U24::new(8_388_608).unwrap());
    assert_eq!(200u8.add_amp(-72), 128);
    assert_eq!(0i16.add_amp(100), 100);
    assert_eq!(32_768u16.to_signed_sample(), 0);
}

#[test]
fn signed_sample_operations() {
    assert!((-3i16).is_negative());
    assert!(3i16.is_positive());
    assert!((-3i16).is_below(2));
    assert_eq!(5i32.negate(), -5);
    assert_eq!(<i64 as SignedSample>::zero(), 0);
}

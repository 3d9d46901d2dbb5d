//! Tests of the peak rectifiers and the `Peak` envelope detector.

use dasp::envelope::{Detect, Peak};
use dasp::peak::{self, FullWave, NegativeHalfWave, PositiveHalfWave, Rectifier};

#[test]
fn full_wave_takes_the_absolute_amplitude() {
    assert_eq!(peak::full_wave([-3i16, 4, 0]), [3, 4, 0]);
    assert_eq!(peak::full_wave([1u8, 255, 128]), [127i8, 127, 0]);
    assert_eq!(peak::full_wave([1u8]), [127i8]);
}

#[test]
fn half_waves_keep_one_side() {
    assert_eq!(peak::positive_half_wave([-3i16, 4, 0]), [0, 4, 0]);
    assert_eq!(peak::negative_half_wave([-3i16, 4, 0]), [-3, 0, 0]);
    assert_eq!(peak::positive_half_wave([10u8, 200]), [128, 200]);
    assert_eq!(peak::negative_half_wave([10u8, 200]), [10, 128]);
}

#[test]
fn half_waves_cancel() {
    let frame = [-5i32, 7, 0, i32::MIN, i32::MAX];
    let both = peak::negative_half_wave(peak::positive_half_wave(frame));
    assert_eq!(both, [0; 5]);
}

#[test]
fn rectifiers_and_the_peak_detector() {
    assert_eq!(FullWave.rectify([-2i8, 2]), [2, 2]);
    assert_eq!(PositiveHalfWave.rectify([-2i8, 2]), [0, 2]);
    assert_eq!(NegativeHalfWave.rectify([-2i8, 2]), [-2, 0]);
    let mut detector = Peak::full_wave();
    assert_eq!(detector.detect([-9i16, 3]), [9, 3]);
    let mut detector = Peak::positive_half_wave();
    assert_eq!(detector.detect([-9i16, 3]), [0, 3]);
    let mut detector = Peak::negative_half_wave();
    assert_eq!(detector.detect([-9i16, 3]), [-9, 0]);
    let mut detector: Peak<FullWave> = Peak::from(FullWave);
    assert_eq!(detector.detect([-1i64]), [1]);
}

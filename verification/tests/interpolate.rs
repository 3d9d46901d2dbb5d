//! Tests of the frame-keeping part of the `Floor` and `Linear` interpolators.

use dasp::interpolate::{Floor, Linear};

#[test]
fn floor_keeps_the_last_source_frame() {
    let mut floor = Floor::new([3i16]);
    assert_eq!(floor.left(), [3]);
    floor.next_source_frame([5]);
    assert_eq!(floor.left(), [5]);
    floor.reset();
    assert_eq!(floor.left(), [0]);
}

#[test]
fn linear_moves_along_the_source() {
    let mut linear = Linear::new([0u8, 1], [2, 3]);
    assert_eq!((linear.left(), linear.right()), ([0, 1], [2, 3]));
    linear.next_source_frame([4, 5]);
    assert_eq!((linear.left(), linear.right()), ([2, 3], [4, 5]));
    linear.reset();
    assert_eq!((linear.left(), linear.right()), ([128, 128], [128, 128]));
}

#[test]
fn interpolators_from_a_source_signal() {
    let mut source = dasp::signal::from_iter(vec![[1i16], [2], [3]]);
    let floor = Floor::from_source(&mut source);
    assert_eq!(floor.left(), [1]);
    let linear = Linear::from_source(&mut source);
    assert_eq!((linear.left(), linear.right()), ([2], [3]));
}

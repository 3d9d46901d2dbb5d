//! Envelope detection over a signal: the `Detect` trait and the `Peak` detector.

use vstd::prelude::*;
use crate::frame::Frame;
use crate::peak::{FullWave, NegativeHalfWave, PositiveHalfWave, Rectifier};

verus! {

/// Types that may be used to detect an envelope over a signal.
pub trait Detect<F: Frame> {
    /// The result of detection.
    type Output: Copy;

    /// Whether the detector can detect the envelope at `frame`.
    spec fn accepts(frame: F) -> bool;

    /// Whether `out` is the envelope detected at `frame`.
    spec fn detects(frame: F, out: Self::Output) -> bool;

    /// Given some frame, return the detected envelope over each channel.
    fn detect(&mut self, frame: F) -> (r: Self::Output)
        requires
            Self::accepts(frame),
        ensures
            Self::detects(frame, r),
    ;
}

/// A `Peak` detector, generic over the `FullWave`, `PositiveHalfWave`, `NegativeHalfWave`
/// rectifiers.
#[derive(Copy, Clone, Debug, PartialEq, Eq)]
pub struct Peak<R = FullWave> {
    rectifier: R,
}

impl<R> Peak<R> {
    /// The rectifier that the detector applies.
    pub closed spec fn rectifier(self) -> R {
        self.rectifier
    }
}

impl<R> From<R> for Peak<R> {
    fn from(rectifier: R) -> (r: Self) {
        Peak { rectifier }
    }
}

impl<R> vstd::std_specs::convert::FromSpecImpl<R> for Peak<R> {
    open spec fn obeys_from_spec() -> bool {
        true
    }

    closed spec fn from_spec(rectifier: R) -> Self {
        Peak { rectifier }
    }
}

impl Peak<FullWave> {
    /// A signal rectifier that produces the absolute amplitude from samples.
    pub fn full_wave() -> (r: Self)
        ensures
            r.rectifier() == FullWave,
    {
        Peak { rectifier: FullWave }
    }
}

impl Peak<PositiveHalfWave> {
    /// A signal rectifier that produces only the positive samples.
    pub fn positive_half_wave() -> (r: Self)
        ensures
            r.rectifier() == PositiveHalfWave,
    {
        Peak { rectifier: PositiveHalfWave }
    }
}

impl Peak<NegativeHalfWave> {
    /// A signal rectifier that produces only the negative samples.
    pub fn negative_half_wave() -> (r: Self)
        ensures
            r.rectifier() == NegativeHalfWave,
    {
        Peak { rectifier: NegativeHalfWave }
    }
}

impl<F: Frame, R: Rectifier<F>> Detect<F> for Peak<R> {
    type Output = R::Output;

    open spec fn accepts(frame: F) -> bool {
        R::accepts(frame)
    }

    open spec fn detects(frame: F, out: R::Output) -> bool {
        R::rectifies(frame, out)
    }

    fn detect(&mut self, frame: F) -> (r: R::Output) {
        self.rectifier.rectify(frame)
    }
}

} // verus!

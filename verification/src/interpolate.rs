//! The frame-keeping part of the `Floor` and `Linear` interpolators: which source frames they
//! interpolate between, and how they advance along the source signal.

use vstd::prelude::*;
use crate::frame::{at_equilibrium, Frame};
use crate::signal::Signal;

verus! {

/// Interpolator that rounds off any values to the previous value from the source.
pub struct Floor<F> {
    left: F,
}

impl<F: Frame> Floor<F> {
    /// The source frame that the interpolator yields.
    pub closed spec fn left_frame(self) -> F {
        self.left
    }

    /// Create a new Floor Interpolator.
    pub fn new(left: F) -> (r: Floor<F>)
        ensures
            r.left_frame() == left,
    {
        Floor { left }
    }

    /// Create a new Floor Interpolator from the next frame of `source`.
    pub fn from_source<S: Signal<Frame = F>>(source: &mut S) -> (r: Floor<F>)
        requires
            (*old(source)).wf(),
        ensures
            (*final(source)).wf(),
            r.left_frame() == (*old(source)).upcoming(0),
            forall|k: nat| #[trigger] (*final(source)).upcoming(k) == (*old(source)).upcoming(k + 1),
    {
        let left = source.next();
        Floor { left }
    }

    /// The source frame that the interpolator yields, wherever between two source frames it is
    /// asked.
    pub fn left(&self) -> (r: F)
        ensures
            r == self.left_frame(),
    {
        self.left
    }

    /// Moves along to the next source frame.
    pub fn next_source_frame(&mut self, source_frame: F)
        ensures
            final(self).left_frame() == source_frame,
    {
        self.left = source_frame;
    }

    /// Resets the interpolator to equilibrium.
    pub fn reset(&mut self)
        ensures
            at_equilibrium(final(self).left_frame()),
    {
        self.left = F::equilibrium();
    }
}

/// Interpolator that interpolates linearly between the previous value and the next value.
pub struct Linear<F> {
    left: F,
    right: F,
}

impl<F: Frame> Linear<F> {
    /// The source frame before the interpolation point.
    pub closed spec fn left_frame(self) -> F {
        self.left
    }

    /// The source frame after the interpolation point.
    pub closed spec fn right_frame(self) -> F {
        self.right
    }

    /// Create a new Linear Interpolator, where `left` and `right` are the first two frames to be
    /// interpolated.
    pub fn new(left: F, right: F) -> (r: Linear<F>)
        ensures
            r.left_frame() == left,
            r.right_frame() == right,
    {
        Linear { left, right }
    }

    /// Create a new Linear Interpolator from the next two frames of `source`.
    pub fn from_source<S: Signal<Frame = F>>(source: &mut S) -> (r: Linear<F>)
        requires
            (*old(source)).wf(),
        ensures
            (*final(source)).wf(),
            r.left_frame() == (*old(source)).upcoming(0),
            r.right_frame() == (*old(source)).upcoming(1),
            forall|k: nat| #[trigger] (*final(source)).upcoming(k) == (*old(source)).upcoming(k + 2),
    {
        let left = source.next();
        let right = source.next();
        Linear { left, right }
    }

    /// The source frame before the interpolation point.
    pub fn left(&self) -> (r: F)
        ensures
            r == self.left_frame(),
    {
        self.left
    }

    /// The source frame after the interpolation point.
    pub fn right(&self) -> (r: F)
        ensures
            r == self.right_frame(),
    {
        self.right
    }

    /// Moves along to the next source frame: the right frame becomes the left one.
    pub fn next_source_frame(&mut self, source_frame: F)
        ensures
            final(self).left_frame() == old(self).right_frame(),
            final(self).right_frame() == source_frame,
    {
        self.left = self.right;
        self.right = source_frame;
    }

    /// Resets both frames to equilibrium.
    pub fn reset(&mut self)
        ensures
            at_equilibrium(final(self).left_frame()),
            at_equilibrium(final(self).right_frame()),
    {
        self.left = F::equilibrium();
        self.right = F::equilibrium();
    }
}

} // verus!

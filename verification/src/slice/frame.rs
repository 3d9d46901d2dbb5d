//! Conversions between slices of samples and slices of frames, on the frame side.

use vstd::prelude::*;
use super::{interleave, whole_frames, SampleView};
use crate::frame::Frame;

verus! {

/// For converting from a slice of `Frame`s to a slice of `Sample`s.
pub trait FromFrameSlice<'a, F: Frame>: Sized + SampleView<F::Sample> {
    fn from_frame_slice(slice: &'a [F]) -> (r: Self)
        requires
            interleave(slice@).len() <= usize::MAX,
        ensures
            r.sample_view() == interleave(slice@),
    ;
}

/// For converting from a mutable slice of `Frame`s to a mutable slice of `Sample`s.
///
/// Each implementation states in its own contract how writes through the result reach `slice`.
pub trait FromFrameSliceMut<'a, F: Frame>: Sized + SampleView<F::Sample> {
    fn from_frame_slice_mut(slice: &'a mut [F]) -> (r: Self)
        requires
            interleave(old(slice)@).len() <= usize::MAX,
        ensures
            r.sample_view() == interleave(old(slice)@),
    ;
}

/// For converting from a slice of `Sample`s to a slice of `Frame`s.
pub trait ToFrameSlice<'a, F: Frame>: SampleView<F::Sample> {
    fn to_frame_slice(self) -> (r: Option<&'a [F]>)
        ensures
            r is Some <==> whole_frames(self.sample_view().len(), F::channel_count()),
            r matches Some(frames) ==> interleave(frames@) == self.sample_view(),
    ;
}

/// For converting from a mutable slice of `Sample`s to a mutable slice of `Frame`s.
///
/// Each implementation states in its own contract how writes through the result reach `self`.
pub trait ToFrameSliceMut<'a, F: Frame>: SampleView<F::Sample> {
    fn to_frame_slice_mut(self) -> (r: Option<&'a mut [F]>)
        ensures
            r is Some <==> whole_frames(self.sample_view().len(), F::channel_count()),
            r matches Some(frames) ==> interleave(frames@) == self.sample_view(),
    ;
}

/// For converting to and from a slice of `Frame`s.
pub trait DuplexFrameSlice<'a, F: Frame>: FromFrameSlice<'a, F> + ToFrameSlice<'a, F> {

}

/// For converting to and from a mutable slice of `Frame`s.
pub trait DuplexFrameSliceMut<'a, F: Frame>: FromFrameSliceMut<'a, F> + ToFrameSliceMut<'a, F> {

}

impl<'a, F: Frame, T: FromFrameSlice<'a, F> + ToFrameSlice<'a, F>> DuplexFrameSlice<'a, F> for T {

}

impl<'a, F: Frame, T: FromFrameSliceMut<'a, F> + ToFrameSliceMut<'a, F>> DuplexFrameSliceMut<
    'a,
    F,
> for T {

}

/// Converts the given slice into a slice of `Frame`s.
///
/// Returns `None` if the number of channels in a single frame `F` is not a multiple of the number
/// of samples in the given slice.
///
/// This is a convenience function that wraps the `ToFrameSlice` trait.
pub fn to_frame_slice<'a, T, F>(slice: T) -> (r: Option<&'a [F]>)
    where
        F: Frame,
        T: ToFrameSlice<'a, F>,
    ensures
        r is Some <==> whole_frames(slice.sample_view().len(), F::channel_count()),
        r matches Some(frames) ==> interleave(frames@) == slice.sample_view(),
{
    slice.to_frame_slice()
}

/// Converts the given mutable slice into a mutable slice of `Frame`s.
///
/// Returns `None` if the number of channels in a single frame `F` is not a multiple of the number
/// of samples in the given slice.
///
/// This is a convenience function that wraps the `ToFrameSliceMut` trait.
pub fn to_frame_slice_mut<'a, T, F>(slice: T) -> (r: Option<&'a mut [F]>)
    where
        F: Frame,
        T: ToFrameSliceMut<'a, F>,
    ensures
        r is Some <==> whole_frames(slice.sample_view().len(), F::channel_count()),
        r matches Some(frames) ==> interleave(frames@) == slice.sample_view(),
{
    slice.to_frame_slice_mut()
}

/// Converts the given slice of `Frame`s into some slice `T`.
///
/// This is a convenience function that wraps the `FromFrameSlice` trait.
pub fn from_frame_slice<'a, T, F>(slice: &'a [F]) -> (r: T)
    where
        F: Frame,
        T: FromFrameSlice<'a, F>,
    requires
        interleave(slice@).len() <= usize::MAX,
    ensures
        r.sample_view() == interleave(slice@),
{
    T::from_frame_slice(slice)
}

/// Converts the given slice of mutable `Frame`s into some mutable slice `T`.
///
/// This is a convenience function that wraps the `FromFrameSliceMut` trait.
pub fn from_frame_slice_mut<'a, T, F>(slice: &'a mut [F]) -> (r: T)
    where
        F: Frame,
        T: FromFrameSliceMut<'a, F>,
    requires
        interleave(old(slice)@).len() <= usize::MAX,
    ensures
        r.sample_view() == interleave(old(slice)@),
{
    T::from_frame_slice_mut(slice)
}

} // verus!

//! For working with slices of PCM audio data.
//!
//! Items related to conversion between slices of frames and slices of samples, particularly useful
//! for working with interleaved data.
//!
//! A slice of frames is modelled by its interleaved samples: channel by channel within a frame,
//! frame by frame along the slice.

pub mod boxed;
mod fixed_size_array;
mod frame;

pub use self::boxed::{
    from_boxed_frame_slice, from_boxed_sample_slice, to_boxed_frame_slice, to_boxed_sample_slice,
    DuplexBoxedFrameSlice, DuplexBoxedSampleSlice, DuplexBoxedSlice, FromBoxedFrameSlice,
    FromBoxedSampleSlice, ToBoxedFrameSlice, ToBoxedSampleSlice,
};
pub use self::frame::{
    from_frame_slice, from_frame_slice_mut, to_frame_slice, to_frame_slice_mut, DuplexFrameSlice,
    DuplexFrameSliceMut, FromFrameSlice, FromFrameSliceMut, ToFrameSlice, ToFrameSliceMut,
};

use vstd::prelude::*;
use crate::frame::{at_equilibrium, can_add, is_sum, Frame};
use crate::sample::Sample;

verus! {

/// The samples of a sequence of frames, channel by channel and frame by frame.
pub open spec fn interleave<F: Frame>(frames: Seq<F>) -> Seq<F::Sample> {
    Seq::new(
        frames.len() * F::channel_count(),
        |i: int| frames[i / F::channel_count() as int].samples()[i % F::channel_count() as int],
    )
}

/// The sample at `k * channels + c` of an interleaved slice is channel `c` of frame `k`.
pub proof fn lemma_interleave_index<F: Frame>(frames: Seq<F>, k: int, c: int)
    requires
        0 <= k < frames.len(),
        0 <= c < F::channel_count(),
    ensures
        k * F::channel_count() + c < interleave(frames).len(),
        interleave(frames)[k * F::channel_count() + c] == frames[k].samples()[c],
{
    let n = F::channel_count() as int;
    vstd::arithmetic::div_mod::lemma_fundamental_div_mod_converse(k * n + c, n, k, c);
    assert(k * n + c < frames.len() * n) by (nonlinear_arith)
        requires
            0 <= k < frames.len(),
            0 <= c < n,
    ;
}

/// Slices of frames that interleave to the same samples are the same frames: converting frames
/// to samples and back gives the frames back.
pub proof fn law_interleave_injective<F: Frame>(a: Seq<F>, b: Seq<F>)
    requires
        F::channel_count() > 0,
        interleave(a) == interleave(b),
    ensures
        a == b,
{
    let n = F::channel_count() as int;
    assert(a.len() == b.len()) by {
        assert(interleave(a).len() == a.len() * n);
        assert(interleave(b).len() == b.len() * n);
        assert(a.len() * n == b.len() * n ==> a.len() == b.len()) by (nonlinear_arith)
            requires
                n > 0,
        ;
    }
    assert forall|k: int| 0 <= k < a.len() implies a[k] == b[k] by {
        a[k].lemma_len();
        b[k].lemma_len();
        assert forall|c: int| 0 <= c < n implies a[k].samples()[c] == b[k].samples()[c] by {
            lemma_interleave_index(a, k, c);
            lemma_interleave_index(b, k, c);
        }
        assert(a[k].samples() =~= b[k].samples());
        a[k].lemma_samples_injective(b[k]);
    }
    assert(a =~= b);
}

/// Whether `n` samples make up a whole number of frames of `channels` channels.
pub open spec fn whole_frames(n: nat, channels: nat) -> bool {
    channels > 0 && n % channels == 0
}

/// Slices of samples or of frames, seen as the samples they hold in interleaved order.
pub trait SampleView<S> {
    /// The samples held, in interleaved order.
    spec fn sample_view(&self) -> Seq<S>;

    /// The number of samples in one element of the slice.
    spec fn samples_per_element() -> nat;
}

// Slice Conversion Traits
// ----------------------------------------------------------------------------

/// For converting from a slice of `Sample`s to a slice of `Frame`s.
pub trait FromSampleSlice<'a, S: Sample>: Sized + SampleView<S> {
    fn from_sample_slice(slice: &'a [S]) -> (r: Option<Self>)
        ensures
            r is Some <==> whole_frames(slice@.len(), Self::samples_per_element()),
            r matches Some(t) ==> t.sample_view() == slice@,
    ;
}

/// For converting from a slice of `Frame`s to a slice of `Sample`s.
pub trait ToSampleSlice<'a, S: Sample>: SampleView<S> {
    fn to_sample_slice(self) -> (r: &'a [S])
        requires
            self.sample_view().len() <= usize::MAX,
        ensures
            r@ == self.sample_view(),
    ;
}

/// For converting from a mutable slice of `Sample`s to a mutable slice of `Frame`s.
///
/// Each implementation states in its own contract how writes through the result reach `slice`.
pub trait FromSampleSliceMut<'a, S: Sample>: Sized + SampleView<S> {
    fn from_sample_slice_mut(slice: &'a mut [S]) -> (r: Option<Self>)
        ensures
            r is Some <==> whole_frames(old(slice)@.len(), Self::samples_per_element()),
            r matches Some(t) ==> t.sample_view() == old(slice)@,
            r is None ==> final(slice)@ == old(slice)@,
    ;
}

/// For converting from a mutable slice of `Frame`s to a mutable slice of `Sample`s.
///
/// Each implementation states in its own contract how writes through the result reach `self`.
pub trait ToSampleSliceMut<'a, S: Sample>: SampleView<S> {
    fn to_sample_slice_mut(self) -> (r: &'a mut [S])
        requires
            self.sample_view().len() <= usize::MAX,
        ensures
            r@ == self.sample_view(),
    ;
}

/// For converting to and from a slice of `Sample`s.
pub trait DuplexSampleSlice<'a, S: Sample>: FromSampleSlice<'a, S> + ToSampleSlice<'a, S> {

}

/// For converting to and from a mutable slice of `Sample`s.
pub trait DuplexSampleSliceMut<'a, S: Sample>: FromSampleSliceMut<'a, S> + ToSampleSliceMut<
    'a,
    S,
> {

}

impl<'a, S: Sample, T: FromSampleSlice<'a, S> + ToSampleSlice<'a, S>> DuplexSampleSlice<'a, S> for T {

}

impl<'a, S: Sample, T: FromSampleSliceMut<'a, S> + ToSampleSliceMut<'a, S>> DuplexSampleSliceMut<
    'a,
    S,
> for T {

}

/// For converting to and from a slice of `Sample`s of type `S` and a slice of `Frame`s of type
/// `F`.
pub trait DuplexSlice<'a, S: Sample, F: Frame<Sample = S>>: DuplexSampleSlice<'a, S> + DuplexFrameSlice<
    'a,
    F,
> {

}

/// For converting to and from a mutable slice of `Sample`s of type `S` and a slice of `Frame`s of
/// type `F`.
pub trait DuplexSliceMut<'a, S: Sample, F: Frame<Sample = S>>: DuplexSampleSliceMut<'a, S> +
    DuplexFrameSliceMut<'a, F> {

}

impl<
    'a,
    S: Sample,
    F: Frame<Sample = S>,
    T: DuplexSampleSlice<'a, S> + DuplexFrameSlice<'a, F>,
> DuplexSlice<'a, S, F> for T {

}

impl<
    'a,
    S: Sample,
    F: Frame<Sample = S>,
    T: DuplexSampleSliceMut<'a, S> + DuplexFrameSliceMut<'a, F>,
> DuplexSliceMut<'a, S, F> for T {

}

// Conversion Functions
// ----------------------------------------------------------------------------

/// Converts the given slice into a slice of `Sample`s.
///
/// This is a convenience function that wraps the `ToSampleSlice` trait.
pub fn to_sample_slice<'a, T, S>(slice: T) -> (r: &'a [S])
    where
        S: Sample,
        T: ToSampleSlice<'a, S>,
    requires
        slice.sample_view().len() <= usize::MAX,
    ensures
        r@ == slice.sample_view(),
{
    slice.to_sample_slice()
}

/// Converts the given mutable slice of `Frame`s into a mutable slice of `Sample`s.
///
/// This is a convenience function that wraps the `ToSampleSliceMut` trait.
pub fn to_sample_slice_mut<'a, T, S>(slice: T) -> (r: &'a mut [S])
    where
        S: Sample,
        T: ToSampleSliceMut<'a, S>,
    requires
        slice.sample_view().len() <= usize::MAX,
    ensures
        r@ == slice.sample_view(),
{
    slice.to_sample_slice_mut()
}

/// Converts the given slice of `Sample`s into some slice `T`.
///
/// Returns `None` if the number of channels in a single frame is not a multiple of the number of
/// samples in the given slice.
///
/// This is a convenience function that wraps the `FromSampleSlice` trait.
pub fn from_sample_slice<'a, T, S>(slice: &'a [S]) -> (r: Option<T>)
    where
        S: Sample,
        T: FromSampleSlice<'a, S>,
    ensures
        r is Some <==> whole_frames(slice@.len(), T::samples_per_element()),
        r matches Some(t) ==> t.sample_view() == slice@,
{
    T::from_sample_slice(slice)
}

/// Converts the given mutable slice of `Sample`s into some mutable slice `T`.
///
/// Returns `None` if the number of channels in a single frame is not a multiple of the number of
/// samples in the given slice.
///
/// This is a convenience function that wraps the `FromSampleSliceMut` trait.
pub fn from_sample_slice_mut<'a, T, S>(slice: &'a mut [S]) -> (r: Option<T>)
    where
        S: Sample,
        T: FromSampleSliceMut<'a, S>,
    ensures
        r is Some <==> whole_frames(old(slice)@.len(), T::samples_per_element()),
        r matches Some(t) ==> t.sample_view() == old(slice)@,
        r is None ==> final(slice)@ == old(slice)@,
{
    T::from_sample_slice_mut(slice)
}

///// Utility Functions

/// Mutate every element in the slice with the given function.
pub fn map_in_place<F, M>(a: &mut [F], mut map: M)
    where
        M: FnMut(F) -> F,
        F: Frame,
    requires
        forall|i: int| 0 <= i < old(a)@.len() ==> call_requires(map, (#[trigger] old(a)@[i],)),
    ensures
        final(a)@.len() == old(a)@.len(),
        forall|i: int|
            0 <= i < old(a)@.len() ==> call_ensures(map, (old(a)@[i],), #[trigger] final(a)@[i]),
{
    let ghost before = a@;
    let ghost initial = map;
    let mut i: usize = 0;
    while i < a.len()
        invariant
            map == initial,
            a@.len() == before.len(),
            i <= a@.len(),
            forall|j: int| 0 <= j < before.len() ==> call_requires(map, (#[trigger] before[j],)),
            forall|j: int| 0 <= j < i ==> call_ensures(map, (before[j],), #[trigger] a@[j]),
            forall|j: int| i <= j < a@.len() ==> #[trigger] a@[j] == before[j],
        decreases a@.len() - i,
    {
        let f = map(a[i]);
        a[i] = f;
        i = i + 1;
    }
}

/// Sets the slice of frames at the associated `Sample`'s equilibrium value.
pub fn equilibrium<F>(a: &mut [F])
    where
        F: Frame,
    ensures
        final(a)@.len() == old(a)@.len(),
        forall|i: int| 0 <= i < old(a)@.len() ==> at_equilibrium(#[trigger] final(a)@[i]),
{
    let silence = |_f: F| -> (r: F)
        ensures
            at_equilibrium(r),
        { F::equilibrium() };
    map_in_place(a, silence);
}

/// Mutate every frame in slice `a` while reading from each frame in slice `b` in lock-step using
/// the given function.
///
/// The two slices must have the same length.
pub fn zip_map_in_place<FA, FB, M>(a: &mut [FA], b: &[FB], mut zip_map: M)
    where
        FA: Frame,
        FB: Frame,
        M: FnMut(FA, FB) -> FA,
    requires
        old(a)@.len() == b@.len(),
        forall|i: int|
            0 <= i < b@.len() ==> call_requires(zip_map, (#[trigger] old(a)@[i], b@[i])),
    ensures
        final(a)@.len() == old(a)@.len(),
        forall|i: int|
            0 <= i < b@.len() ==> call_ensures(zip_map, (old(a)@[i], b@[i]), #[trigger] final(a)@[i]),
{
    let ghost before = a@;
    let ghost initial = zip_map;
    let mut i: usize = 0;
    while i < a.len()
        invariant
            zip_map == initial,
            a@.len() == before.len(),
            b@.len() == before.len(),
            i <= a@.len(),
            forall|j: int|
                0 <= j < before.len() ==> call_requires(zip_map, (#[trigger] before[j], b@[j])),
            forall|j: int| 0 <= j < i ==> call_ensures(zip_map, (before[j], b@[j]), #[trigger] a@[j]),
            forall|j: int| i <= j < a@.len() ==> #[trigger] a@[j] == before[j],
        decreases a@.len() - i,
    {
        let f = zip_map(a[i], b[i]);
        a[i] = f;
        i = i + 1;
    }
}

/// Writes every sample in slice `b` to slice `a`.
///
/// The two slices must have the same length.
pub fn write<F>(a: &mut [F], b: &[F])
    where
        F: Frame,
    requires
        old(a)@.len() == b@.len(),
    ensures
        final(a)@ == b@,
{
    let take = |_x: F, y: F| -> (r: F)
        ensures
            r == y,
        { y };
    zip_map_in_place(a, b, take);
    assert(a@ =~= b@);
}

/// Adds every sample in slice `b` to every sample in slice `a` respectively.
///
/// The two slices must have the same length, and every sum must fit the `Signed` format.
pub fn add_in_place<F>(a: &mut [F], b: &[F::Signed])
    where
        F: Frame,
    requires
        old(a)@.len() == b@.len(),
        forall|i: int| 0 <= i < b@.len() ==> can_add(#[trigger] old(a)@[i], b@[i]),
    ensures
        final(a)@.len() == old(a)@.len(),
        forall|i: int| 0 <= i < b@.len() ==> is_sum(old(a)@[i], b@[i], #[trigger] final(a)@[i]),
{
    let ghost before = a@;
    let mut i: usize = 0;
    while i < a.len()
        invariant
            a@.len() == before.len(),
            b@.len() == before.len(),
            i <= a@.len(),
            forall|j: int| 0 <= j < b@.len() ==> can_add(#[trigger] before[j], b@[j]),
            forall|j: int| 0 <= j < i ==> is_sum(before[j], b@[j], #[trigger] a@[j]),
            forall|j: int| i <= j < a@.len() ==> #[trigger] a@[j] == before[j],
        decreases a@.len() - i,
    {
        let f = a[i].add_amp(b[i]);
        a[i] = f;
        i = i + 1;
    }
}

} // verus!

//! Items related to boxed-slice conversions.
//!
//! A boxed slice of frames and a boxed slice of samples hold their samples in one allocation of
//! the same layout; here the conversion copies them into a new allocation of the other type.

use vstd::prelude::*;
use super::fixed_size_array::{
    flatten, lemma_flatten_index, lemma_flatten_split, lemma_interleave_arrays,
};
use super::{interleave, whole_frames, SampleView};
use crate::frame::Frame;
use crate::sample::Sample;

verus! {

// Traits
// ----------------------------------------------------------------------------

/// For converting a boxed slice of `Sample`s to a boxed slice of `Frame`s.
pub trait FromBoxedSampleSlice<S: Sample>: Sized + SampleView<S> {
    fn from_boxed_sample_slice(slice: Box<[S]>) -> (r: Option<Self>)
        ensures
            r is Some <==> whole_frames(slice@.len(), Self::samples_per_element()),
            r matches Some(t) ==> t.sample_view() == slice@,
    ;
}

/// For converting from a boxed slice of `Frame`s to a boxed slice of `Sample`s.
pub trait FromBoxedFrameSlice<F: Frame>: Sized + SampleView<F::Sample> {
    fn from_boxed_frame_slice(slice: Box<[F]>) -> (r: Self)
        requires
            interleave(slice@).len() <= usize::MAX,
        ensures
            r.sample_view() == interleave(slice@),
    ;
}

/// For converting from a boxed slice of `Frame`s to a boxed slice of `Sample`s.
pub trait ToBoxedSampleSlice<S: Sample>: SampleView<S> {
    fn to_boxed_sample_slice(self) -> (r: Box<[S]>)
        requires
            self.sample_view().len() <= usize::MAX,
        ensures
            r@ == self.sample_view(),
    ;
}

/// For converting from a boxed slice of `Sample`s to a boxed slice of `Frame`s.
pub trait ToBoxedFrameSlice<F: Frame>: SampleView<F::Sample> {
    fn to_boxed_frame_slice(self) -> (r: Option<Box<[F]>>)
        ensures
            r is Some <==> whole_frames(self.sample_view().len(), F::channel_count()),
            r matches Some(frames) ==> interleave(frames@) == self.sample_view(),
    ;
}

/// For converting to and from a boxed slice of `Sample`s.
pub trait DuplexBoxedSampleSlice<S: Sample>: FromBoxedSampleSlice<S> + ToBoxedSampleSlice<S> {

}

/// For converting to and from a boxed slice of `Frame`s.
pub trait DuplexBoxedFrameSlice<F: Frame>: FromBoxedFrameSlice<F> + ToBoxedFrameSlice<F> {

}

/// For converting to and from a boxed slice of `Sample`s of type `S` and a boxed slice of `Frame`s
/// of type `F`.
pub trait DuplexBoxedSlice<S: Sample, F: Frame<Sample = S>>: DuplexBoxedSampleSlice<S> +
    DuplexBoxedFrameSlice<F> {

}

impl<S: Sample, T: FromBoxedSampleSlice<S> + ToBoxedSampleSlice<S>> DuplexBoxedSampleSlice<S> for T {

}

impl<F: Frame, T: FromBoxedFrameSlice<F> + ToBoxedFrameSlice<F>> DuplexBoxedFrameSlice<F> for T {

}

impl<
    S: Sample,
    F: Frame<Sample = S>,
    T: DuplexBoxedSampleSlice<S> + DuplexBoxedFrameSlice<F>,
> DuplexBoxedSlice<S, F> for T {

}

// Implementations
// ----------------------------------------------------------------------------

/// Converts a vector into a boxed slice: `std::vec::Vec::into_boxed_slice`.
///
/// Trusted: the boxed slice holds the vector's elements, in order.
#[verifier::external_body]
fn boxed<T>(v: Vec<T>) -> (r: Box<[T]>)
    ensures
        r@ == v@,
{
    v.into_boxed_slice()
}

/// Gathers every `N` consecutive samples into a frame.
fn gather<S: Copy, const N: usize>(samples: &[S]) -> (r: Vec<[S; N]>)
    requires
        N > 0,
        samples@.len() % (N as nat) == 0,
    ensures
        r@.len() * N == samples@.len(),
        flatten(r@) == samples@,
{
    let len = samples.len();
    let count = len / N;
    proof {
        vstd::arithmetic::div_mod::lemma_fundamental_div_mod(samples@.len() as int, N as int);
        assert(count * N == N * count) by (nonlinear_arith);
    }
    let mut frames: Vec<[S; N]> = Vec::new();
    let mut i: usize = 0;
    while i < count
        invariant
            N > 0,
            count * N == samples@.len(),
            samples@.len() == len,
            i <= count,
            frames@.len() == i,
            forall|k: int, c: int|
                0 <= k < i && 0 <= c < N ==> #[trigger] frames@[k]@[c] == samples@[k * N + c],
        decreases count - i,
    {
        proof {
            assert(i * N + N <= count * N) by (nonlinear_arith)
                requires
                    i < count,
            ;
        }
        let base = i * N;
        let mut frame = [samples[base]; N];
        let mut c: usize = 1;
        while c < N
            invariant
                N > 0,
                base + N <= len,
                samples@.len() == len,
                1 <= c <= N,
                forall|d: int| 0 <= d < c ==> #[trigger] frame@[d] == samples@[base + d],
            decreases N - c,
        {
            frame[c] = samples[base + c];
            c = c + 1;
        }
        frames.push(frame);
        i = i + 1;
    }
    assert forall|j: int| 0 <= j < samples@.len() implies #[trigger] flatten(frames@)[j]
        == samples@[j] by {
        lemma_flatten_split(frames@, j);
    }
    assert(flatten(frames@) =~= samples@);
    frames
}

/// Lays the samples of every frame out one after the other.
fn scatter<S: Copy, const N: usize>(frames: &[[S; N]]) -> (r: Vec<S>)
    requires
        frames@.len() * N <= usize::MAX,
    ensures
        r@ == flatten(frames@),
{
    let mut samples: Vec<S> = Vec::new();
    let mut i: usize = 0;
    while i < frames.len()
        invariant
            frames@.len() * N <= usize::MAX,
            i <= frames@.len(),
            samples@ == flatten(frames@.subrange(0, i as int)),
        decreases frames@.len() - i,
    {
        let frame = frames[i];
        let mut c: usize = 0;
        while c < N
            invariant
                0 <= i < frames@.len(),
                frame == frames@[i as int],
                c <= N,
                samples@ == flatten(frames@.subrange(0, i as int)) + frame@.subrange(0, c as int),
            decreases N - c,
        {
            samples.push(frame[c]);
            c = c + 1;
        }
        proof {
            lemma_flatten_push(frames@.subrange(0, i as int), frame);
            assert(frames@.subrange(0, i as int).push(frame) =~= frames@.subrange(0, i + 1));
        }
        i = i + 1;
    }
    assert(frames@.subrange(0, frames@.len() as int) =~= frames@);
    samples
}

/// Flattening one more array appends its elements.
proof fn lemma_flatten_push<S, const N: usize>(arrays: Seq<[S; N]>, last: [S; N])
    ensures
        flatten(arrays.push(last)) == flatten(arrays) + last@,
{
    let n = arrays.len();
    let longer = arrays.push(last);
    assert((n + 1) * N == n * N + N) by (nonlinear_arith);
    assert forall|j: int| 0 <= j < (n + 1) * N implies #[trigger] flatten(longer)[j] == (flatten(
        arrays,
    ) + last@)[j] by {
        lemma_flatten_split(longer, j);
        let k = j / (N as int);
        let c = j % (N as int);
        if k < n {
            lemma_flatten_index(arrays, k, c);
        } else {
            assert(j - n * N == c);
        }
    }
    assert(flatten(longer) =~= flatten(arrays) + last@);
}

impl<S> SampleView<S> for Box<[S]> {
    open spec fn sample_view(&self) -> Seq<S> {
        (**self)@
    }

    open spec fn samples_per_element() -> nat {
        1
    }
}

impl<S, const N: usize> SampleView<S> for Box<[[S; N]]> {
    open spec fn sample_view(&self) -> Seq<S> {
        flatten((**self)@)
    }

    open spec fn samples_per_element() -> nat {
        N as nat
    }
}

impl<S: Sample> FromBoxedSampleSlice<S> for Box<[S]> {
    fn from_boxed_sample_slice(slice: Box<[S]>) -> (r: Option<Self>) {
        Some(slice)
    }
}

impl<S: Sample, const N: usize> FromBoxedSampleSlice<S> for Box<[[S; N]]> {
    fn from_boxed_sample_slice(slice: Box<[S]>) -> (r: Option<Self>) {
        if N == 0 || slice.len() % N != 0 {
            return None;
        }
        Some(boxed(gather::<S, N>(&*slice)))
    }
}

impl<S: Sample, const N: usize> FromBoxedFrameSlice<[S; N]> for Box<[S]> {
    fn from_boxed_frame_slice(slice: Box<[[S; N]]>) -> (r: Self) {
        proof {
            lemma_interleave_arrays(slice@);
        }
        boxed(scatter(&*slice))
    }
}

impl<S: Sample, const N: usize> FromBoxedFrameSlice<[S; N]> for Box<[[S; N]]> {
    fn from_boxed_frame_slice(slice: Box<[[S; N]]>) -> (r: Self) {
        proof {
            lemma_interleave_arrays(slice@);
        }
        slice
    }
}

impl<S: Sample> ToBoxedSampleSlice<S> for Box<[S]> {
    fn to_boxed_sample_slice(self) -> (r: Box<[S]>) {
        self
    }
}

impl<S: Sample, const N: usize> ToBoxedSampleSlice<S> for Box<[[S; N]]> {
    fn to_boxed_sample_slice(self) -> (r: Box<[S]>) {
        boxed(scatter(&*self))
    }
}

impl<S: Sample, const N: usize> ToBoxedFrameSlice<[S; N]> for Box<[S]> {
    fn to_boxed_frame_slice(self) -> (r: Option<Box<[[S; N]]>>) {
        let r = <Box<[[S; N]]> as FromBoxedSampleSlice<S>>::from_boxed_sample_slice(self);
        proof {
            if r is Some {
                lemma_interleave_arrays(r->0@);
            }
        }
        r
    }
}

impl<S: Sample, const N: usize> ToBoxedFrameSlice<[S; N]> for Box<[[S; N]]> {
    fn to_boxed_frame_slice(self) -> (r: Option<Box<[[S; N]]>>) {
        if N == 0 {
            return None;
        }
        proof {
            lemma_interleave_arrays(self@);
            vstd::arithmetic::div_mod::lemma_mod_multiples_basic(self@.len() as int, N as int);
        }
        Some(self)
    }
}

// Free Functions
// ----------------------------------------------------------------------------

/// Converts the given boxed slice into a boxed slice of `Sample`s.
///
/// This is a convenience function that wraps the `ToBoxedSampleSlice` trait.
pub fn to_boxed_sample_slice<T, S>(slice: T) -> (r: Box<[S]>)
    where
        S: Sample,
        T: ToBoxedSampleSlice<S>,
    requires
        slice.sample_view().len() <= usize::MAX,
    ensures
        r@ == slice.sample_view(),
{
    slice.to_boxed_sample_slice()
}

/// Converts the given boxed slice into a boxed slice of `Frame`s.
///
/// Returns `None` if the number of channels in a single frame `F` is not a multiple of the number
/// of samples in the given slice.
///
/// This is a convenience function that wraps the `ToBoxedFrameSlice` trait.
pub fn to_boxed_frame_slice<T, F>(slice: T) -> (r: Option<Box<[F]>>)
    where
        F: Frame,
        T: ToBoxedFrameSlice<F>,
    ensures
        r is Some <==> whole_frames(slice.sample_view().len(), F::channel_count()),
        r matches Some(frames) ==> interleave(frames@) == slice.sample_view(),
{
    slice.to_boxed_frame_slice()
}

/// Converts the given boxed slice of `Sample`s into some slice `T`.
///
/// Returns `None` if the number of channels in a single frame is not a multiple of the number of
/// samples in the given slice.
///
/// This is a convenience function that wraps the `FromBoxedSampleSlice` trait.
pub fn from_boxed_sample_slice<T, S>(slice: Box<[S]>) -> (r: Option<T>)
    where
        S: Sample,
        T: FromBoxedSampleSlice<S>,
    ensures
        r is Some <==> whole_frames(slice@.len(), T::samples_per_element()),
        r matches Some(t) ==> t.sample_view() == slice@,
{
    T::from_boxed_sample_slice(slice)
}

/// Converts the given boxed slice of `Frame`s into some slice `T`.
///
/// This is a convenience function that wraps the `FromBoxedFrameSlice` trait.
pub fn from_boxed_frame_slice<T, F>(slice: Box<[F]>) -> (r: T)
    where
        F: Frame,
        T: FromBoxedFrameSlice<F>,
    requires
        interleave(slice@).len() <= usize::MAX,
    ensures
        r.sample_view() == interleave(slice@),
{
    T::from_boxed_frame_slice(slice)
}

} // verus!

//! Implementations of the slice conversion traits for slices of fixed-size-array frames.

use vstd::prelude::*;
use super::{
    interleave, whole_frames, FromFrameSlice, FromFrameSliceMut, FromSampleSlice,
    FromSampleSliceMut, SampleView, ToFrameSlice, ToFrameSliceMut, ToSampleSlice,
    ToSampleSliceMut,
};
use crate::frame::Frame;
use crate::sample::Sample;

verus! {

/// The samples of a sequence of arrays, array by array.
pub open spec fn flatten<S, const N: usize>(arrays: Seq<[S; N]>) -> Seq<S> {
    Seq::new(arrays.len() * (N as nat), |i: int| arrays[i / N as int]@[i % N as int])
}

/// Views `slice` as arrays of `N` elements: `core::slice::<[T]>::as_chunks`.
///
/// Trusted: the first slice holds the first `len / N * N` elements, `N` to an array, in order;
/// the second holds the rest. The function panics when `N` is zero, which `requires` leaves out.
#[verifier::external_body]
fn chunks<T, const N: usize>(slice: &[T]) -> (r: (&[[T; N]], &[T]))
    requires
        N > 0,
    ensures
        r.0@.len() == slice@.len() / (N as nat),
        flatten(r.0@) == slice@.subrange(0, r.0@.len() * N),
        r.1@ == slice@.subrange(r.0@.len() * N, slice@.len() as int),
{
    slice.as_chunks::<N>()
}

/// Views a slice of arrays as the slice of their elements: `core::slice::<[[T; N]]>::as_flattened`.
///
/// Trusted: the result holds the elements of the arrays, array by array. The function panics
/// when that length overflows `usize`, which `requires` leaves out.
#[verifier::external_body]
fn flattened<T, const N: usize>(slice: &[[T; N]]) -> (r: &[T])
    requires
        slice@.len() * N <= usize::MAX,
    ensures
        r@ == flatten(slice@),
{
    slice.as_flattened()
}

/// Views a mutable slice as arrays of `N` elements: `core::slice::<[T]>::as_chunks_mut`.
///
/// Trusted: as `chunks`, and what is written through the two results is what `slice` holds
/// afterwards. The function panics when `N` is zero, which `requires` leaves out.
#[verifier::external_body]
fn chunks_mut<T, const N: usize>(slice: &mut [T]) -> (r: (&mut [[T; N]], &mut [T]))
    requires
        N > 0,
    ensures
        r.0@.len() == old(slice)@.len() / (N as nat),
        flatten(r.0@) == old(slice)@.subrange(0, r.0@.len() * N),
        r.1@ == old(slice)@.subrange(r.0@.len() * N, old(slice)@.len() as int),
        final(r.0)@.len() == r.0@.len(),
        final(slice)@ == flatten(final(r.0)@) + final(r.1)@,
{
    slice.as_chunks_mut::<N>()
}

/// Views a mutable slice of arrays as the slice of their elements:
/// `core::slice::<[[T; N]]>::as_flattened_mut`.
///
/// Trusted: as `flattened`, and what is written through the result is what `slice` holds
/// afterwards, array by array. The function panics when the length overflows `usize`, which
/// `requires` leaves out.
#[verifier::external_body]
fn flattened_mut<T, const N: usize>(slice: &mut [[T; N]]) -> (r: &mut [T])
    requires
        old(slice)@.len() * N <= usize::MAX,
    ensures
        r@ == flatten(old(slice)@),
        final(slice)@.len() == old(slice)@.len(),
        flatten(final(slice)@) == final(r)@,
{
    slice.as_flattened_mut()
}

/// The element of a flattened sequence at position `k * N + c` is element `c` of array `k`.
pub proof fn lemma_flatten_index<S, const N: usize>(arrays: Seq<[S; N]>, k: int, c: int)
    requires
        0 <= k < arrays.len(),
        0 <= c < N,
    ensures
        k * N + c < arrays.len() * N,
        flatten(arrays)[k * N + c] == arrays[k]@[c],
{
    vstd::arithmetic::div_mod::lemma_fundamental_div_mod_converse(k * N + c, N as int, k, c);
    assert(k * N + c < arrays.len() * N) by (nonlinear_arith)
        requires
            0 <= k < arrays.len(),
            0 <= c < N,
    ;
}

/// Every position of a flattened sequence lies in one of the arrays.
pub proof fn lemma_flatten_split<S, const N: usize>(arrays: Seq<[S; N]>, j: int)
    requires
        0 <= j < arrays.len() * N,
    ensures
        N > 0,
        0 <= j / (N as int) < arrays.len(),
        0 <= j % (N as int) < N,
        j == (j / (N as int)) * N + j % (N as int),
        flatten(arrays)[j] == arrays[j / (N as int)]@[j % (N as int)],
{
    assert(N > 0) by (nonlinear_arith)
        requires
            0 <= j < arrays.len() * N,
    ;
    let d = N as int;
    vstd::arithmetic::div_mod::lemma_fundamental_div_mod(j, d);
    vstd::arithmetic::div_mod::lemma_div_pos_is_pos(j, d);
    let q = j / d;
    assert(q * d == d * q) by (nonlinear_arith);
    assert(q < arrays.len()) by (nonlinear_arith)
        requires
            d * q <= j,
            j < arrays.len() * d,
            d > 0,
    ;
}

/// A slice of array frames interleaves to the flattened slice.
pub proof fn lemma_interleave_arrays<S: Sample, const N: usize>(frames: Seq<[S; N]>)
    ensures
        interleave(frames) == flatten(frames),
{
    assert(interleave(frames) =~= flatten(frames));
}

impl<'a, S> SampleView<S> for &'a [S] {
    open spec fn sample_view(&self) -> Seq<S> {
        (**self)@
    }

    open spec fn samples_per_element() -> nat {
        1
    }
}

impl<'a, S, const N: usize> SampleView<S> for &'a [[S; N]] {
    open spec fn sample_view(&self) -> Seq<S> {
        flatten((**self)@)
    }

    open spec fn samples_per_element() -> nat {
        N as nat
    }
}

impl<'a, S> SampleView<S> for &'a mut [S] {
    open spec fn sample_view(&self) -> Seq<S> {
        (**self)@
    }

    open spec fn samples_per_element() -> nat {
        1
    }
}

impl<'a, S, const N: usize> SampleView<S> for &'a mut [[S; N]] {
    open spec fn sample_view(&self) -> Seq<S> {
        flatten((**self)@)
    }

    open spec fn samples_per_element() -> nat {
        N as nat
    }
}

impl<'a, S: Sample> FromSampleSliceMut<'a, S> for &'a mut [S] {
    fn from_sample_slice_mut(slice: &'a mut [S]) -> (r: Option<Self>)
        ensures
            r matches Some(t) ==> final(slice)@ == final(t)@,
    {
        Some(slice)
    }
}

impl<'a, S: Sample> ToSampleSliceMut<'a, S> for &'a mut [S] {
    fn to_sample_slice_mut(self) -> (r: &'a mut [S])
        ensures
            final(self)@ == final(r)@,
    {
        self
    }
}

impl<'a, S: Sample, const N: usize> FromSampleSliceMut<'a, S> for &'a mut [[S; N]] {
    fn from_sample_slice_mut(slice: &'a mut [S]) -> (r: Option<Self>)
        ensures
            r matches Some(t) ==> final(slice)@ == flatten(final(t)@) && final(t)@.len() == t@.len(),
    {
        if N == 0 {
            return None;
        }
        let ghost len = slice@.len();
        if slice.len() % N != 0 {
            return None;
        }
        let (frames, rest) = chunks_mut::<S, N>(slice);
        proof {
            vstd::arithmetic::div_mod::lemma_fundamental_div_mod(len as int, N as int);
            let q = len / (N as nat);
            assert(q * N == N * q) by (nonlinear_arith);
        }
        Some(frames)
    }
}

impl<'a, S: Sample, const N: usize> ToSampleSliceMut<'a, S> for &'a mut [[S; N]] {
    fn to_sample_slice_mut(self) -> (r: &'a mut [S])
        ensures
            final(self)@.len() == old(self)@.len(),
            flatten(final(self)@) == final(r)@,
    {
        flattened_mut(self)
    }
}

impl<'a, S: Sample> FromSampleSlice<'a, S> for &'a [S] {
    fn from_sample_slice(slice: &'a [S]) -> (r: Option<Self>) {
        Some(slice)
    }
}

impl<'a, S: Sample> ToSampleSlice<'a, S> for &'a [S] {
    fn to_sample_slice(self) -> (r: &'a [S]) {
        self
    }
}

impl<'a, S: Sample, const N: usize> FromSampleSlice<'a, S> for &'a [[S; N]] {
    fn from_sample_slice(slice: &'a [S]) -> (r: Option<Self>) {
        if N == 0 {
            return None;
        }
        let (frames, rest) = chunks::<S, N>(slice);
        proof {
            vstd::arithmetic::div_mod::lemma_fundamental_div_mod(slice@.len() as int, N as int);
            let q = slice@.len() / (N as nat);
            assert(frames@.len() == q);
            assert(q * N == N * q) by (nonlinear_arith);
        }
        if rest.len() == 0 {
            Some(frames)
        } else {
            None
        }
    }
}

impl<'a, S: Sample, const N: usize> ToSampleSlice<'a, S> for &'a [[S; N]] {
    fn to_sample_slice(self) -> (r: &'a [S]) {
        flattened(self)
    }
}

impl<'a, S: Sample, const N: usize> FromFrameSlice<'a, [S; N]> for &'a [S] {
    fn from_frame_slice(slice: &'a [[S; N]]) -> (r: Self) {
        proof {
            lemma_interleave_arrays(slice@);
        }
        flattened(slice)
    }
}

impl<'a, S: Sample, const N: usize> FromFrameSlice<'a, [S; N]> for &'a [[S; N]] {
    fn from_frame_slice(slice: &'a [[S; N]]) -> (r: Self) {
        proof {
            lemma_interleave_arrays(slice@);
        }
        slice
    }
}

impl<'a, S: Sample, const N: usize> FromFrameSliceMut<'a, [S; N]> for &'a mut [S] {
    fn from_frame_slice_mut(slice: &'a mut [[S; N]]) -> (r: Self)
        ensures
            final(slice)@.len() == old(slice)@.len(),
            flatten(final(slice)@) == final(r)@,
    {
        proof {
            lemma_interleave_arrays(slice@);
        }
        flattened_mut(slice)
    }
}

impl<'a, S: Sample, const N: usize> FromFrameSliceMut<'a, [S; N]> for &'a mut [[S; N]] {
    fn from_frame_slice_mut(slice: &'a mut [[S; N]]) -> (r: Self)
        ensures
            final(slice)@ == final(r)@,
    {
        proof {
            lemma_interleave_arrays(slice@);
        }
        slice
    }
}

impl<'a, S: Sample, const N: usize> ToFrameSlice<'a, [S; N]> for &'a [S] {
    fn to_frame_slice(self) -> (r: Option<&'a [[S; N]]>) {
        let r = <&'a [[S; N]] as FromSampleSlice<'a, S>>::from_sample_slice(self);
        proof {
            if let Some(frames) = r {
                lemma_interleave_arrays(frames@);
            }
        }
        r
    }
}

impl<'a, S: Sample, const N: usize> ToFrameSlice<'a, [S; N]> for &'a [[S; N]] {
    fn to_frame_slice(self) -> (r: Option<&'a [[S; N]]>) {
        if N == 0 {
            return None;
        }
        proof {
            lemma_interleave_arrays(self@);
            vstd::arithmetic::div_mod::lemma_mod_multiples_basic(self@.len() as int, N as int);
        }
        Some(self)
    }
}

impl<'a, S: Sample, const N: usize> ToFrameSliceMut<'a, [S; N]> for &'a mut [S] {
    fn to_frame_slice_mut(self) -> (r: Option<&'a mut [[S; N]]>)
        ensures
            r matches Some(frames) ==> final(self)@ == flatten::<S, N>(final(frames)@) && final(frames)@.len()
                == frames@.len(),
            r is None ==> final(self)@ == old(self)@,
    {
        let r = <&'a mut [[S; N]] as FromSampleSliceMut<'a, S>>::from_sample_slice_mut(self);
        proof {
            if r is Some {
                lemma_interleave_arrays(r->0@);
            }
        }
        r
    }
}

impl<'a, S: Sample, const N: usize> ToFrameSliceMut<'a, [S; N]> for &'a mut [[S; N]] {
    fn to_frame_slice_mut(self) -> (r: Option<&'a mut [[S; N]]>)
        ensures
            r matches Some(frames) ==> final(self)@ == final(frames)@,
            r is None ==> final(self)@ == old(self)@,
    {
        if N == 0 {
            return None;
        }
        proof {
            lemma_interleave_arrays(self@);
            vstd::arithmetic::div_mod::lemma_mod_multiples_basic(self@.len() as int, N as int);
        }
        Some(self)
    }
}

} // verus!

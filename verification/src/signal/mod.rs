//! Use the **Signal** trait to work with infinite-iterator-like types that yield **Frame**s.
//!
//! A signal is modelled by the frames it will yield: `upcoming(k)` is the frame that the
//! `k`-th call of `next` from now returns. Every adapter states its upcoming frames in terms of
//! those of the signals it wraps.

mod buffered;
mod bus;
mod fork;
mod interleaved;
mod ops;
mod sources;

pub use self::buffered::{Buffered, BufferedFrames};
pub use self::bus::Bus;
pub use self::fork::{Branch, Fork};
pub use self::interleaved::{IntoInterleavedSamples, IntoInterleavedSamplesIterator};
pub use self::sources::{
    frame_of, from_interleaved_samples_iter, from_iter, noise, noise_value,
    FromInterleavedSamplesIterator, FromIterator, Noise,
};
pub use self::ops::{
    tap, tap_mut, AddAmp, ClipAmp, Delay, Inspect, MapFrames, OffsetAmp, OffsetAmpPerChannel,
    Take, Tap, TapMut, UntilExhausted, ZipMap,
};

use vstd::prelude::*;
use core::marker::PhantomData;
use crate::frame::{at_equilibrium, equilibrium_frame, lemma_equilibrium_frame, Frame};
use crate::ring_buffer::{Bounded, SliceMut};
use crate::sample::Sample;
use self::interleaved::interleaved_sample;

verus! {

/// Types that yield `Frame`s as a multi-channel PCM signal.
pub trait Signal {
    /// The `Frame` type returned by the `Signal`.
    type Frame: Frame;

    /// Whether the signal is in a state from which it can yield frames.
    spec fn wf(&self) -> bool;

    /// The frame that the `k`-th call of `next` from now yields, counting from zero.
    spec fn upcoming(&self, k: nat) -> Self::Frame;

    /// Whether the signal reports that it has no more meaningful frames.
    spec fn exhausted(&self) -> bool;

    /// Yield the next `Frame` in the `Signal`.
    fn next(&mut self) -> (r: Self::Frame)
        requires
            old(self).wf(),
        ensures
            final(self).wf(),
            r == old(self).upcoming(0),
            forall|k: nat| #[trigger] final(self).upcoming(k) == old(self).upcoming(k + 1),
    ;

    /// Whether or not the signal is exhausted of meaningful frames.
    ///
    /// By default, signals are infinite and never exhausted; finite signals, such as those made
    /// from iterators, report when they run out.
    fn is_exhausted(&self) -> (r: bool)
        requires
            self.wf(),
        ensures
            r == self.exhausted(),
    ;
}

/// The adaptors available on every `Signal`.
pub trait SignalExt: Signal + Sized {
    /// A signal that maps one set of frames to another.
    fn map<M, F>(self, map: M) -> (r: MapFrames<Self, M, F>)
        where
            M: FnMut(Self::Frame) -> F,
            F: Frame,
        ensures
            r.source() == self,
            r.mapping() == map,
    ;

    /// Provides an iterator that yields the frames of two signals mapped to one another
    /// through the given function.
    fn zip_map<O, M, F>(self, other: O, map: M) -> (r: ZipMap<Self, O, M, F>)
        where
            M: FnMut(Self::Frame, O::Frame) -> F,
            O: Signal,
            F: Frame,
        ensures
            r.source() == self,
            r.other_source() == other,
            r.mapping() == map,
    ;

    /// Provides an iterator that offsets the amplitude of every channel in each frame of the
    /// signal by the matching channel of each frame of `other`.
    fn add_amp<S>(self, other: S) -> (r: AddAmp<Self, S>)
        where
            S: Signal<Frame = <Self::Frame as Frame>::Signed>,
        ensures
            r.source() == self,
            r.offsets() == other,
    ;

    /// Provides an iterator that offsets the amplitude of every channel in each frame of the
    /// signal by some sample value.
    fn offset_amp(self, offset: <<Self::Frame as Frame>::Sample as Sample>::Signed) -> (r: OffsetAmp<Self>)
        ensures
            r.source() == self,
            r.amp() == offset,
    ;

    /// Produces an `Iterator` that offsets the amplitude of every channel of each frame by the
    /// matching channel of `amp_frame`.
    fn offset_amp_per_channel(self, amp_frame: <Self::Frame as Frame>::Signed) -> (r: OffsetAmpPerChannel<
        Self,
        <Self::Frame as Frame>::Signed,
    >)
        ensures
            r.source() == self,
            r.amps() == amp_frame,
    ;

    /// Delays the `Signal` by the given number of frames.
    ///
    /// The delay is performed by yielding `Frame::equilibrium()` `n_frames` times before
    /// continuing to yield frames from `signal`.
    fn delay(self, n_frames: usize) -> (r: Delay<Self>)
        ensures
            r.source() == self,
            r.remaining_delay() == n_frames,
    ;

    /// Converts a `Signal` into a type that yields the interleaved `Sample`s, taking its first
    /// frame.
    fn into_interleaved_samples(self) -> (r: IntoInterleavedSamples<Self>)
        requires
            self.wf(),
            <Self::Frame as Frame>::channel_count() > 0,
        ensures
            r.wf(),
            forall|k: nat| #[trigger] r.upcoming_sample(k) == interleaved_sample(self, k),
    ;

    /// Clips the amplitude of each channel in each `Frame` yielded by `self` to the given
    /// threshold amplitude.
    fn clip_amp(self, thresh: <<Self::Frame as Frame>::Sample as Sample>::Signed) -> (r: ClipAmp<Self>)
        ensures
            r.source() == self,
            r.threshold() == thresh,
    ;

    /// Create a new `Signal` that calls the enclosing function on each iteration.
    fn inspect<F>(self, inspect: F) -> (r: Inspect<Self, F>)
        where
            F: FnMut(&Self::Frame),
        ensures
            r.source() == self,
            r.inspector() == inspect,
    ;

    /// Forks `Self` into two signals that produce the same frames, buffered in `ring_buffer`.
    fn fork<D>(self, ring_buffer: Bounded<D>) -> (r: Fork<Self, D>)
        where
            D: SliceMut<Element = Self::Frame>,
        ensures
            r.source() == self,
            r.buffer() == ring_buffer,
            r.pending() == Branch::B,
    ;

    /// Converts the `Signal` into an `Iterator` that will yield the given number for `Frame`s
    /// before returning `None`.
    fn take(self, n: usize) -> (r: Take<Self>)
        ensures
            r.source() == self,
            r.remaining() == n,
    ;

    /// Converts the `Signal` into an `Iterator` yielding frames until `signal.is_exhausted()`
    /// returns `true`.
    fn until_exhausted(self) -> (r: UntilExhausted<Self>)
        ensures
            r.source() == self,
    ;

    /// Buffers the signal using the given ring buffer.
    fn buffered<D>(self, ring_buffer: Bounded<D>) -> (r: Buffered<Self, D>)
        where
            D: SliceMut<Element = Self::Frame>,
        ensures
            r.source() == self,
            r.buffer() == ring_buffer,
    ;

    /// Moves the `Signal` into a `Bus` from which its frames may be sent to any number of
    /// outputs.
    fn bus(self) -> (r: Bus<Self>)
        requires
            self.wf(),
        ensures
            r.wf(),
            r.source() == self,
            r.buffered().len() == 0,
            r.readers().len() == 0,
    ;

    /// Borrows a Signal rather than consuming it.
    fn by_ref(&mut self) -> (r: &mut Self)
        ensures
            *r == *old(self),
            *final(self) == *final(r),
    ;
}

impl<T: Signal> SignalExt for T {
    fn map<M, F>(self, map: M) -> (r: MapFrames<Self, M, F>)
        where
            M: FnMut(Self::Frame) -> F,
            F: Frame,
    {
        MapFrames::new(self, map)
    }

    fn zip_map<O, M, F>(self, other: O, map: M) -> (r: ZipMap<Self, O, M, F>)
        where
            M: FnMut(Self::Frame, O::Frame) -> F,
            O: Signal,
            F: Frame,
    {
        ZipMap::new(self, other, map)
    }

    fn add_amp<S>(self, other: S) -> (r: AddAmp<Self, S>)
        where
            S: Signal<Frame = <Self::Frame as Frame>::Signed>,
    {
        AddAmp::new(self, other)
    }

    fn offset_amp(self, offset: <<Self::Frame as Frame>::Sample as Sample>::Signed) -> (r: OffsetAmp<Self>) {
        OffsetAmp::new(self, offset)
    }

    fn offset_amp_per_channel(self, amp_frame: <Self::Frame as Frame>::Signed) -> (r: OffsetAmpPerChannel<
        Self,
        <Self::Frame as Frame>::Signed,
    >) {
        OffsetAmpPerChannel::new(self, amp_frame)
    }

    fn delay(self, n_frames: usize) -> (r: Delay<Self>) {
        Delay::new(self, n_frames)
    }

    fn into_interleaved_samples(self) -> (r: IntoInterleavedSamples<Self>) {
        IntoInterleavedSamples::new(self)
    }

    fn clip_amp(self, thresh: <<Self::Frame as Frame>::Sample as Sample>::Signed) -> (r: ClipAmp<Self>) {
        ClipAmp::new(self, thresh)
    }

    fn inspect<F>(self, inspect: F) -> (r: Inspect<Self, F>)
        where
            F: FnMut(&Self::Frame),
    {
        Inspect::new(self, inspect)
    }

    fn fork<D>(self, ring_buffer: Bounded<D>) -> (r: Fork<Self, D>)
        where
            D: SliceMut<Element = Self::Frame>,
    {
        Fork::new(self, ring_buffer)
    }

    fn take(self, n: usize) -> (r: Take<Self>) {
        Take::new(self, n)
    }

    fn until_exhausted(self) -> (r: UntilExhausted<Self>) {
        UntilExhausted::new(self)
    }

    fn buffered<D>(self, ring_buffer: Bounded<D>) -> (r: Buffered<Self, D>)
        where
            D: SliceMut<Element = Self::Frame>,
    {
        Buffered::new(self, ring_buffer)
    }

    fn bus(self) -> (r: Bus<Self>) {
        Bus::new(self)
    }

    fn by_ref(&mut self) -> (r: &mut Self) {
        self
    }
}

/// Whether `gen` can always be called, and always produces the same frame.
pub open spec fn is_constant<F, G: Fn() -> F>(gen: G) -> bool {
    &&& call_requires(gen, ())
    &&& forall|a: F, b: F| #[trigger] call_ensures(gen, (), a) && #[trigger] call_ensures(gen, (), b) ==> a == b
}

/// The frame that `gen` produces.
pub open spec fn output_of<F, G: Fn() -> F>(gen: G) -> F {
    choose|f: F| call_ensures(gen, (), f)
}

/// Whether `gen` can always be called, and always produces the same frame.
pub open spec fn is_constant_mut<F, G: FnMut() -> F>(gen: G) -> bool {
    &&& call_requires(gen, ())
    &&& forall|a: F, b: F| #[trigger] call_ensures(gen, (), a) && #[trigger] call_ensures(gen, (), b) ==> a == b
}

/// The frame that `gen` produces.
pub open spec fn output_of_mut<F, G: FnMut() -> F>(gen: G) -> F {
    choose|f: F| call_ensures(gen, (), f)
}

/// An iterator that endlessly yields `Frame`s of type `F` at equilibrium.
pub struct Equilibrium<F> {
    frame: PhantomData<F>,
}

/// A signal that generates frames using the given function.
pub struct Gen<G, F> {
    gen: G,
    frame: PhantomData<F>,
}

/// A signal that generates frames using the given function which may mutate some state.
pub struct GenMut<G, F> {
    gen_mut: G,
    frame: PhantomData<F>,
}

impl<F> Clone for Equilibrium<F> {
    fn clone(&self) -> (r: Self) {
        Equilibrium { frame: PhantomData }
    }
}

impl<G: Clone, F> Clone for Gen<G, F> {
    fn clone(&self) -> (r: Self) {
        Gen { gen: self.gen.clone(), frame: PhantomData }
    }
}

impl<G: Clone, F> Clone for GenMut<G, F> {
    fn clone(&self) -> (r: Self) {
        GenMut { gen_mut: self.gen_mut.clone(), frame: PhantomData }
    }
}

/// Provides an iterator that endlessly yields `Frame`s of type `F` at equilibrium.
pub fn equilibrium<F: Frame>() -> (r: Equilibrium<F>)
    ensures
        r.wf(),
        forall|k: nat| #[trigger] r.upcoming(k) == equilibrium_frame::<F>(),
        !r.exhausted(),
{
    Equilibrium { frame: PhantomData }
}

/// A signal that generates frames using the given function.
///
/// The function is called once per frame. The frames of the signal are known, and its `next`
/// can be verified, exactly where the function always produces the same frame: that is when the
/// signal is well-formed.
pub fn gen<G, F>(generate: G) -> (r: Gen<G, F>)
    where
        G: Fn() -> F,
        F: Frame,
    ensures
        r.wf() == is_constant(generate),
        r.generator() == generate,
        forall|k: nat| #[trigger] r.upcoming(k) == output_of(generate),
        !r.exhausted(),
{
    Gen { gen: generate, frame: PhantomData }
}

/// A signal that generates frames using the given function which may mutate some state.
///
/// The function is called once per frame. A closure call is modelled as leaving the closure as
/// it was, so the frames of the signal are known, and its `next` can be verified, exactly where
/// the function always produces the same frame: that is when the signal is well-formed.
pub fn gen_mut<G, F>(generate: G) -> (r: GenMut<G, F>)
    where
        G: FnMut() -> F,
        F: Frame,
    ensures
        r.wf() == is_constant_mut(generate),
        r.generator() == generate,
        forall|k: nat| #[trigger] r.upcoming(k) == output_of_mut(generate),
        !r.exhausted(),
{
    GenMut { gen_mut: generate, frame: PhantomData }
}

impl<F: Frame> Signal for Equilibrium<F> {
    type Frame = F;

    open spec fn wf(&self) -> bool {
        true
    }

    open spec fn upcoming(&self, k: nat) -> F {
        equilibrium_frame::<F>()
    }

    open spec fn exhausted(&self) -> bool {
        false
    }

    fn next(&mut self) -> (r: F) {
        let r = F::equilibrium();
        proof {
            lemma_equilibrium_frame(r);
        }
        r
    }

    fn is_exhausted(&self) -> (r: bool) {
        false
    }
}

impl<G: Fn() -> F, F: Frame> Gen<G, F> {
    /// The generating function.
    pub closed spec fn generator(&self) -> G {
        self.gen
    }
}

impl<G: Fn() -> F, F: Frame> Signal for Gen<G, F> {
    type Frame = F;

    open spec fn wf(&self) -> bool {
        is_constant(self.generator())
    }

    open spec fn upcoming(&self, k: nat) -> F {
        output_of(self.generator())
    }

    open spec fn exhausted(&self) -> bool {
        false
    }

    fn next(&mut self) -> (r: F) {
        (self.gen)()
    }

    fn is_exhausted(&self) -> (r: bool) {
        false
    }
}

impl<G: FnMut() -> F, F: Frame> GenMut<G, F> {
    /// The generating function.
    pub closed spec fn generator(&self) -> G {
        self.gen_mut
    }
}

impl<G: FnMut() -> F, F: Frame> Signal for GenMut<G, F> {
    type Frame = F;

    open spec fn wf(&self) -> bool {
        is_constant_mut(self.generator())
    }

    open spec fn upcoming(&self, k: nat) -> F {
        output_of_mut(self.generator())
    }

    open spec fn exhausted(&self) -> bool {
        false
    }

    fn next(&mut self) -> (r: F) {
        (self.gen_mut)()
    }

    fn is_exhausted(&self) -> (r: bool) {
        false
    }
}

impl<'a, S: Signal> Signal for &'a mut S {
    type Frame = S::Frame;

    open spec fn wf(&self) -> bool {
        (**self).wf()
    }

    open spec fn upcoming(&self, k: nat) -> S::Frame {
        (**self).upcoming(k)
    }

    open spec fn exhausted(&self) -> bool {
        (**self).exhausted()
    }

    fn next(&mut self) -> (r: S::Frame) {
        (**self).next()
    }

    fn is_exhausted(&self) -> (r: bool) {
        (**self).is_exhausted()
    }
}

} // verus!

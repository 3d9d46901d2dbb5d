//! Signal adapters that transform the frames of the signals they wrap, one frame at a time.

use vstd::prelude::*;
use core::marker::PhantomData;
use super::Signal;
use crate::frame::{
    can_add, can_offset_frame, equilibrium_frame, frame_valid, is_offset, is_sum,
    lemma_equilibrium_frame, lemma_offset_frame, lemma_sum_frame, offset_frame, signed_amp,
    sum_frame, Frame,
};
use crate::sample::{half_range, lemma_rescale_sign, rescale, Pcm, Sample, SignedSample};

verus! {

/// Whether `map` can be called on every frame, and maps each one to a single result.
pub open spec fn is_map<A, F, M: FnMut(A) -> F>(map: M) -> bool {
    &&& forall|a: A| #[trigger] call_requires(map, (a,))
    &&& forall|a: A, x: F, y: F|
        #[trigger] call_ensures(map, (a,), x) && #[trigger] call_ensures(map, (a,), y) ==> x == y
}

/// What `map` maps `a` to.
pub open spec fn image<A, F, M: FnMut(A) -> F>(map: M, a: A) -> F {
    choose|f: F| call_ensures(map, (a,), f)
}

/// Whether `map` can be called on every pair of frames, and maps each pair to a single result.
pub open spec fn is_zip_map<A, B, F, M: FnMut(A, B) -> F>(map: M) -> bool {
    &&& forall|a: A, b: B| #[trigger] call_requires(map, (a, b))
    &&& forall|a: A, b: B, x: F, y: F|
        #[trigger] call_ensures(map, (a, b), x) && #[trigger] call_ensures(map, (a, b), y) ==> x == y
}

/// What `map` maps the pair `a`, `b` to.
pub open spec fn zip_image<A, B, F, M: FnMut(A, B) -> F>(map: M, a: A, b: B) -> F {
    choose|f: F| call_ensures(map, (a, b), f)
}

/// A signal that maps one set of frames to another.
pub struct MapFrames<S, M, F> {
    signal: S,
    map: M,
    frames: PhantomData<F>,
}

impl<S, M, F> MapFrames<S, M, F> {
    /// The signal whose frames are mapped.
    pub closed spec fn source(&self) -> S {
        self.signal
    }

    /// The mapping function.
    pub closed spec fn mapping(&self) -> M {
        self.map
    }

    pub(crate) fn new(signal: S, map: M) -> (r: Self)
        ensures
            r.source() == signal,
            r.mapping() == map,
    {
        MapFrames { signal, map, frames: PhantomData }
    }
}

impl<S: Signal, M: FnMut(S::Frame) -> F, F: Frame> Signal for MapFrames<S, M, F> {
    type Frame = F;

    open spec fn wf(&self) -> bool {
        self.source().wf() && is_map(self.mapping())
    }

    open spec fn upcoming(&self, k: nat) -> F {
        image(self.mapping(), self.source().upcoming(k))
    }

    open spec fn exhausted(&self) -> bool {
        self.source().exhausted()
    }

    fn next(&mut self) -> (r: F) {
        let frame = self.signal.next();
        (self.map)(frame)
    }

    fn is_exhausted(&self) -> (r: bool) {
        self.signal.is_exhausted()
    }
}

/// Delays the `signal` by the given number of frames.
///
/// The delay is performed by yielding `Frame::equilibrium()` `n_frames` times before
/// continuing to yield frames from `signal`.
#[derive(Clone)]
pub struct Delay<S> {
    signal: S,
    n_frames: usize,
}

impl<S> Delay<S> {
    /// The delayed signal.
    pub closed spec fn source(&self) -> S {
        self.signal
    }

    /// The number of equilibrium frames still to be yielded.
    pub closed spec fn remaining_delay(&self) -> nat {
        self.n_frames as nat
    }

    pub(crate) fn new(signal: S, n_frames: usize) -> (r: Self)
        ensures
            r.source() == signal,
            r.remaining_delay() == n_frames,
    {
        Delay { signal, n_frames }
    }
}

impl<S: Signal> Signal for Delay<S> {
    type Frame = S::Frame;

    open spec fn wf(&self) -> bool {
        self.source().wf()
    }

    open spec fn upcoming(&self, k: nat) -> S::Frame {
        if k < self.remaining_delay() {
            equilibrium_frame::<S::Frame>()
        } else {
            self.source().upcoming((k - self.remaining_delay()) as nat)
        }
    }

    open spec fn exhausted(&self) -> bool {
        self.remaining_delay() == 0 && self.source().exhausted()
    }

    fn next(&mut self) -> (r: S::Frame) {
        if self.n_frames > 0 {
            self.n_frames = self.n_frames - 1;
            let r = S::Frame::equilibrium();
            proof {
                lemma_equilibrium_frame(r);
            }
            r
        } else {
            self.signal.next()
        }
    }

    fn is_exhausted(&self) -> (r: bool) {
        self.n_frames == 0 && self.signal.is_exhausted()
    }
}

/// A signal that maps two sets of frames to another.
pub struct ZipMap<S, O, M, F> {
    this: S,
    other: O,
    map: M,
    frame: PhantomData<F>,
}

impl<S, O, M, F> ZipMap<S, O, M, F> {
    /// The first signal.
    pub closed spec fn source(&self) -> S {
        self.this
    }

    /// The second signal.
    pub closed spec fn other_source(&self) -> O {
        self.other
    }

    /// The mapping function.
    pub closed spec fn mapping(&self) -> M {
        self.map
    }

    pub(crate) fn new(this: S, other: O, map: M) -> (r: Self)
        ensures
            r.source() == this,
            r.other_source() == other,
            r.mapping() == map,
    {
        ZipMap { this, other, map, frame: PhantomData }
    }
}

impl<S: Signal, O: Signal, M: FnMut(S::Frame, O::Frame) -> F, F: Frame> Signal for ZipMap<
    S,
    O,
    M,
    F,
> {
    type Frame = F;

    open spec fn wf(&self) -> bool {
        self.source().wf() && self.other_source().wf() && is_zip_map(self.mapping())
    }

    open spec fn upcoming(&self, k: nat) -> F {
        zip_image(self.mapping(), self.source().upcoming(k), self.other_source().upcoming(k))
    }

    open spec fn exhausted(&self) -> bool {
        self.source().exhausted() || self.other_source().exhausted()
    }

    fn next(&mut self) -> (r: F) {
        let a = self.this.next();
        let b = self.other.next();
        (self.map)(a, b)
    }

    fn is_exhausted(&self) -> (r: bool) {
        self.this.is_exhausted() || self.other.is_exhausted()
    }
}

/// Provides an iterator that offsets the amplitude of every channel in each frame of the signal
/// by some sample value and yields the resulting frames.
#[derive(Clone)]
pub struct AddAmp<A, B> {
    a: A,
    b: B,
}

impl<A, B> AddAmp<A, B> {
    /// The signal that is offset.
    pub closed spec fn source(&self) -> A {
        self.a
    }

    /// The signal of offsets.
    pub closed spec fn offsets(&self) -> B {
        self.b
    }

    pub(crate) fn new(a: A, b: B) -> (r: Self)
        ensures
            r.source() == a,
            r.offsets() == b,
    {
        AddAmp { a, b }
    }
}

impl<A: Signal, B: Signal<Frame = <A::Frame as Frame>::Signed>> Signal for AddAmp<A, B> {
    type Frame = A::Frame;

    open spec fn wf(&self) -> bool {
        &&& self.source().wf()
        &&& self.offsets().wf()
        &&& forall|k: nat| can_add(#[trigger] self.source().upcoming(k), self.offsets().upcoming(k))
    }

    open spec fn upcoming(&self, k: nat) -> A::Frame {
        sum_frame(self.source().upcoming(k), self.offsets().upcoming(k))
    }

    open spec fn exhausted(&self) -> bool {
        self.source().exhausted() || self.offsets().exhausted()
    }

    fn next(&mut self) -> (r: A::Frame) {
        assert(can_add(self.a.upcoming(0), self.b.upcoming(0)));
        let x = self.a.next();
        let y = self.b.next();
        let r = x.add_amp(y);
        proof {
            lemma_sum_frame(x, y, r);
            assert forall|k: nat| can_add(#[trigger] self.a.upcoming(k), self.b.upcoming(k)) by {
                assert(can_add(old(self).a.upcoming(k + 1), old(self).b.upcoming(k + 1)));
            }
        }
        r
    }

    fn is_exhausted(&self) -> (r: bool) {
        self.a.is_exhausted() || self.b.is_exhausted()
    }
}

/// An adaptor that offsets the amplitude of every channel of every frame by the same sample.
#[derive(Clone)]
pub struct OffsetAmp<S: Signal> {
    signal: S,
    offset: <<S::Frame as Frame>::Sample as Sample>::Signed,
}

impl<S: Signal> OffsetAmp<S> {
    /// The signal that is offset.
    pub closed spec fn source(&self) -> S {
        self.signal
    }

    /// The offset added to every channel.
    pub closed spec fn amp(&self) -> <<S::Frame as Frame>::Sample as Sample>::Signed {
        self.offset
    }

    pub(crate) fn new(signal: S, offset: <<S::Frame as Frame>::Sample as Sample>::Signed) -> (r: Self)
        ensures
            r.source() == signal,
            r.amp() == offset,
    {
        OffsetAmp { signal, offset }
    }
}

impl<S: Signal> Signal for OffsetAmp<S> {
    type Frame = S::Frame;

    open spec fn wf(&self) -> bool {
        &&& self.source().wf()
        &&& forall|k: nat| can_offset_frame(#[trigger] self.source().upcoming(k), self.amp())
    }

    open spec fn upcoming(&self, k: nat) -> S::Frame {
        offset_frame(self.source().upcoming(k), self.amp())
    }

    open spec fn exhausted(&self) -> bool {
        self.source().exhausted()
    }

    fn next(&mut self) -> (r: S::Frame) {
        assert(can_offset_frame(self.signal.upcoming(0), self.offset));
        let x = self.signal.next();
        let r = x.offset_amp(self.offset);
        proof {
            lemma_offset_frame(x, self.offset, r);
            assert forall|k: nat| can_offset_frame(#[trigger] self.signal.upcoming(k), self.offset) by {
                assert(can_offset_frame(old(self).signal.upcoming(k + 1), self.offset));
            }
        }
        r
    }

    fn is_exhausted(&self) -> (r: bool) {
        self.signal.is_exhausted()
    }
}

/// An adaptor that offsets the amplitude of each channel of every frame by the matching channel
/// of a constant frame.
#[derive(Clone)]
pub struct OffsetAmpPerChannel<S, F> {
    signal: S,
    amp_frame: F,
}

impl<S, F> OffsetAmpPerChannel<S, F> {
    /// The signal that is offset.
    pub closed spec fn source(&self) -> S {
        self.signal
    }

    /// The frame of offsets, one per channel.
    pub closed spec fn amps(&self) -> F {
        self.amp_frame
    }

    pub(crate) fn new(signal: S, amp_frame: F) -> (r: Self)
        ensures
            r.source() == signal,
            r.amps() == amp_frame,
    {
        OffsetAmpPerChannel { signal, amp_frame }
    }
}

impl<S: Signal> Signal for OffsetAmpPerChannel<S, <S::Frame as Frame>::Signed> {
    type Frame = S::Frame;

    open spec fn wf(&self) -> bool {
        &&& self.source().wf()
        &&& forall|k: nat| can_add(#[trigger] self.source().upcoming(k), self.amps())
    }

    open spec fn upcoming(&self, k: nat) -> S::Frame {
        sum_frame(self.source().upcoming(k), self.amps())
    }

    open spec fn exhausted(&self) -> bool {
        self.source().exhausted()
    }

    fn next(&mut self) -> (r: S::Frame) {
        assert(can_add(self.signal.upcoming(0), self.amp_frame));
        let x = self.signal.next();
        let r = x.add_amp(self.amp_frame);
        proof {
            lemma_sum_frame(x, self.amp_frame, r);
            assert forall|k: nat| can_add(#[trigger] self.signal.upcoming(k), self.amp_frame) by {
                assert(can_add(old(self).signal.upcoming(k + 1), self.amp_frame));
            }
        }
        r
    }

    fn is_exhausted(&self) -> (r: bool) {
        self.signal.is_exhausted()
    }
}

/// A signal that calls its enclosing function on each frame and yields the frame unchanged.
/// The function may not mutate the frames.
#[derive(Clone)]
pub struct Inspect<S, F> {
    signal: S,
    inspect: F,
}

impl<S, F> Inspect<S, F> {
    /// The inspected signal.
    pub closed spec fn source(&self) -> S {
        self.signal
    }

    /// The inspecting function.
    pub closed spec fn inspector(&self) -> F {
        self.inspect
    }

    pub(crate) fn new(signal: S, inspect: F) -> (r: Self)
        ensures
            r.source() == signal,
            r.inspector() == inspect,
    {
        Inspect { signal, inspect }
    }
}

impl<S: Signal, F: FnMut(&S::Frame)> Signal for Inspect<S, F> {
    type Frame = S::Frame;

    open spec fn wf(&self) -> bool {
        &&& self.source().wf()
        &&& forall|frame: S::Frame| #[trigger] call_requires(self.inspector(), (&frame,))
    }

    open spec fn upcoming(&self, k: nat) -> S::Frame {
        self.source().upcoming(k)
    }

    open spec fn exhausted(&self) -> bool {
        self.source().exhausted()
    }

    fn next(&mut self) -> (r: S::Frame)
        ensures
            call_ensures(old(self).inspector(), (&r,), ()),
            final(self).inspector() == old(self).inspector(),
    {
        let ghost inspector = self.inspector();
        let out = self.signal.next();
        assert(call_requires(inspector, (&out,)));
        (self.inspect)(&out);
        assert(self.inspector() == inspector);
        out
    }

    fn is_exhausted(&self) -> (r: bool) {
        self.signal.is_exhausted()
    }
}

/// `v` clipped to lie within `-thresh..=thresh`.
pub open spec fn clip(v: int, thresh: int) -> int {
    if v > thresh {
        thresh
    } else if v < -thresh {
        -thresh
    } else {
        v
    }
}

/// Whether `out` is `frame` with the amplitude of every channel clipped to `thresh` in the
/// `Signed` format.
pub open spec fn is_clipped<F: Frame>(
    frame: F,
    thresh: <F::Sample as Sample>::Signed,
    out: F,
) -> bool {
    forall|i: int|
        0 <= i < F::channel_count() ==> {
            &&& (#[trigger] out.samples()[i]).valid()
            &&& out.samples()[i].amp() == rescale(
                clip(signed_amp(frame.samples()[i]), thresh.amp()),
                <<F::Sample as Sample>::Signed as Pcm>::depth(),
                <F::Sample as Pcm>::depth(),
            )
        }
}

/// The frame that is `frame` clipped to `thresh`.
pub open spec fn clipped_frame<F: Frame>(frame: F, thresh: <F::Sample as Sample>::Signed) -> F {
    choose|out: F| is_clipped(frame, thresh, out)
}

/// Whether `thresh` can clip: it is valid and its negation is too.
pub open spec fn is_threshold<S: SignedSample>(thresh: S) -> bool {
    thresh.valid() && thresh.amp() > -half_range(S::depth())
}

/// Clips `frame` to `thresh`, channel by channel.
fn clip_frame<F: Frame>(frame: F, thresh: <F::Sample as Sample>::Signed) -> (r: F)
    requires
        frame_valid(frame),
        is_threshold(thresh),
    ensures
        is_clipped(frame, thresh, r),
        r == clipped_frame(frame, thresh),
{
    proof {
        frame.lemma_len();
    }
    let neg = thresh.negate();
    let n = F::num_channels();
    let mut out = frame;
    let mut i: usize = 0;
    while i < n
        invariant
            i <= n,
            n == F::channel_count(),
            frame_valid(frame),
            is_threshold(thresh),
            neg.valid(),
            neg.amp() == -thresh.amp(),
            frame.samples().len() == n,
            out.samples().len() == n,
            forall|j: int|
                0 <= j < i ==> {
                    &&& (#[trigger] out.samples()[j]).valid()
                    &&& out.samples()[j].amp() == rescale(
                        clip(signed_amp(frame.samples()[j]), thresh.amp()),
                        <<F::Sample as Sample>::Signed as Pcm>::depth(),
                        <F::Sample as Pcm>::depth(),
                    )
                },
        decreases n - i,
    {
        let s = *frame.channel(i).unwrap();
        let signed = s.to_signed_sample();
        let clipped = if thresh.is_below(signed) {
            thresh
        } else if signed.is_below(neg) {
            neg
        } else {
            signed
        };
        let zero = <F::Sample as Sample>::equilibrium();
        proof {
            clipped.lemma_valid();
            lemma_rescale_sign(
                0,
                <F::Sample as Pcm>::depth(),
                <<F::Sample as Sample>::Signed as Pcm>::depth(),
            );
        }
        let c = zero.add_amp(clipped);
        out.set_channel(i, c);
        proof {
            out.lemma_len();
        }
        i = i + 1;
    }
    proof {
        let chosen = clipped_frame(frame, thresh);
        assert(is_clipped(frame, thresh, out));
        assert(is_clipped(frame, thresh, chosen));
        crate::frame::lemma_same_amps(out, chosen);
    }
    out
}

/// Clips samples in each frame yielded by `signal` to the given threshhold amplitude.
#[derive(Clone)]
pub struct ClipAmp<S: Signal> {
    signal: S,
    thresh: <<S::Frame as Frame>::Sample as Sample>::Signed,
}

impl<S: Signal> ClipAmp<S> {
    /// The clipped signal.
    pub closed spec fn source(&self) -> S {
        self.signal
    }

    /// The threshold amplitude.
    pub closed spec fn threshold(&self) -> <<S::Frame as Frame>::Sample as Sample>::Signed {
        self.thresh
    }

    pub(crate) fn new(signal: S, thresh: <<S::Frame as Frame>::Sample as Sample>::Signed) -> (r: Self)
        ensures
            r.source() == signal,
            r.threshold() == thresh,
    {
        ClipAmp { signal, thresh }
    }
}

impl<S: Signal> Signal for ClipAmp<S> {
    type Frame = S::Frame;

    open spec fn wf(&self) -> bool {
        &&& self.source().wf()
        &&& is_threshold(self.threshold())
        &&& forall|k: nat| frame_valid(#[trigger] self.source().upcoming(k))
    }

    open spec fn upcoming(&self, k: nat) -> S::Frame {
        clipped_frame(self.source().upcoming(k), self.threshold())
    }

    open spec fn exhausted(&self) -> bool {
        self.source().exhausted()
    }

    fn next(&mut self) -> (r: S::Frame) {
        assert(frame_valid(self.signal.upcoming(0)));
        let f = self.signal.next();
        proof {
            assert forall|k: nat| frame_valid(#[trigger] self.signal.upcoming(k)) by {
                assert(frame_valid(old(self).signal.upcoming(k + 1)));
            }
        }
        clip_frame(f, self.thresh)
    }

    fn is_exhausted(&self) -> (r: bool) {
        self.signal.is_exhausted()
    }
}

/// An iterator that yields `n` number of `Frame`s from the inner `signal`.
#[derive(Clone)]
pub struct Take<S> {
    signal: S,
    n: usize,
}

impl<S> Take<S> {
    /// The signal that frames are taken from.
    pub closed spec fn source(&self) -> S {
        self.signal
    }

    /// The number of frames still to be taken.
    pub closed spec fn remaining(&self) -> nat {
        self.n as nat
    }

    pub(crate) fn new(signal: S, n: usize) -> (r: Self)
        ensures
            r.source() == signal,
            r.remaining() == n,
    {
        Take { signal, n }
    }
}

impl<S: Signal> Take<S> {
    /// Yields the next frame of the signal while frames remain to be taken, and `None`
    /// afterwards.
    pub fn next(&mut self) -> (r: Option<S::Frame>)
        requires
            old(self).source().wf(),
        ensures
            final(self).source().wf(),
            old(self).remaining() == 0 ==> r is None && *final(self) == *old(self),
            old(self).remaining() > 0 ==> {
                &&& r == Some(old(self).source().upcoming(0))
                &&& final(self).remaining() == old(self).remaining() - 1
                &&& forall|k: nat| #[trigger] final(self).source().upcoming(k) == old(
                    self,
                ).source().upcoming(k + 1)
            },
    {
        if self.n == 0 {
            return None;
        }
        self.n = self.n - 1;
        Some(self.signal.next())
    }

    /// The number of frames still to be taken, as a lower and an upper bound.
    pub fn size_hint(&self) -> (r: (usize, Option<usize>))
        ensures
            r.0 == self.remaining(),
            r.1 == Some(self.remaining() as usize),
    {
        (self.n, Some(self.n))
    }

    /// The number of frames still to be taken.
    pub fn len(&self) -> (r: usize)
        ensures
            r == self.remaining(),
    {
        self.n
    }
}

/// Iterates over the frames of a signal until it reports itself exhausted.
#[derive(Clone)]
pub struct UntilExhausted<S> {
    signal: S,
}

impl<S> UntilExhausted<S> {
    /// The signal iterated over.
    pub closed spec fn source(&self) -> S {
        self.signal
    }

    pub(crate) fn new(signal: S) -> (r: Self)
        ensures
            r.source() == signal,
    {
        UntilExhausted { signal }
    }
}

impl<S: Signal> UntilExhausted<S> {
    /// Yields the next frame of the signal, or `None` once it is exhausted.
    pub fn next(&mut self) -> (r: Option<S::Frame>)
        requires
            old(self).source().wf(),
        ensures
            final(self).source().wf(),
            old(self).source().exhausted() ==> r is None && *final(self) == *old(self),
            !old(self).source().exhausted() ==> {
                &&& r == Some(old(self).source().upcoming(0))
                &&& forall|k: nat| #[trigger] final(self).source().upcoming(k) == old(
                    self,
                ).source().upcoming(k + 1)
            },
    {
        if self.signal.is_exhausted() {
            return None;
        }
        Some(self.signal.next())
    }
}

/// A signal that calls a function with a reference to each of its frames before yielding it.
pub struct Tap<S, Func, F> {
    signal: S,
    func: Func,
    frame: PhantomData<F>,
}

/// A signal that calls a function, which may mutate some state, with a reference to each of its
/// frames before yielding it.
pub struct TapMut<S, Func, F> {
    signal: S,
    func: Func,
    frame: PhantomData<F>,
}

/// Calls `func` with a reference to each frame of `signal` before yielding it.
pub fn tap<S, Func, F>(signal: S, func: Func) -> (r: Tap<S, Func, F>)
    where
        S: Signal<Frame = F>,
        Func: Fn(&F),
        F: Frame,
    ensures
        r.source() == signal,
        r.tapper() == func,
{
    Tap { signal, func, frame: PhantomData }
}

/// Calls `func`, which may mutate some state, with a reference to each frame of `signal` before
/// yielding it.
pub fn tap_mut<S, Func, F>(signal: S, func: Func) -> (r: TapMut<S, Func, F>)
    where
        S: Signal<Frame = F>,
        Func: FnMut(&F),
        F: Frame,
    ensures
        r.source() == signal,
        r.tapper() == func,
{
    TapMut { signal, func, frame: PhantomData }
}

impl<S, Func, F> Tap<S, Func, F> {
    /// The tapped signal.
    pub closed spec fn source(&self) -> S {
        self.signal
    }

    /// The function called on each frame.
    pub closed spec fn tapper(&self) -> Func {
        self.func
    }
}

impl<S, Func, F> TapMut<S, Func, F> {
    /// The tapped signal.
    pub closed spec fn source(&self) -> S {
        self.signal
    }

    /// The function called on each frame.
    pub closed spec fn tapper(&self) -> Func {
        self.func
    }
}

impl<S: Signal<Frame = F>, Func: Fn(&F), F: Frame> Signal for Tap<S, Func, F> {
    type Frame = F;

    open spec fn wf(&self) -> bool {
        &&& self.source().wf()
        &&& forall|frame: F| #[trigger] call_requires(self.tapper(), (&frame,))
    }

    open spec fn upcoming(&self, k: nat) -> F {
        self.source().upcoming(k)
    }

    open spec fn exhausted(&self) -> bool {
        self.source().exhausted()
    }

    fn next(&mut self) -> (r: F)
        ensures
            call_ensures(old(self).tapper(), (&r,), ()),
            final(self).tapper() == old(self).tapper(),
    {
        let ghost tapper = self.tapper();
        let out = self.signal.next();
        assert(call_requires(tapper, (&out,)));
        (self.func)(&out);
        out
    }

    fn is_exhausted(&self) -> (r: bool) {
        self.signal.is_exhausted()
    }
}

impl<S: Signal<Frame = F>, Func: FnMut(&F), F: Frame> Signal for TapMut<S, Func, F> {
    type Frame = F;

    open spec fn wf(&self) -> bool {
        &&& self.source().wf()
        &&& forall|frame: F| #[trigger] call_requires(self.tapper(), (&frame,))
    }

    open spec fn upcoming(&self, k: nat) -> F {
        self.source().upcoming(k)
    }

    open spec fn exhausted(&self) -> bool {
        self.source().exhausted()
    }

    fn next(&mut self) -> (r: F)
        ensures
            call_ensures(old(self).tapper(), (&r,), ()),
            final(self).tapper() == old(self).tapper(),
    {
        let ghost tapper = self.tapper();
        let out = self.signal.next();
        assert(call_requires(tapper, (&out,)));
        (self.func)(&out);
        assert(self.tapper() == tapper);
        out
    }

    fn is_exhausted(&self) -> (r: bool) {
        self.signal.is_exhausted()
    }
}

} // verus!

//! Use the **Frame** trait to remain generic over the number of channels at a single discrete
//! moment in time.
//!
//! Implementations are provided for all fixed-size arrays of samples.

mod scalar;

use vstd::prelude::*;
use crate::sample::{amp_in_range, half_range, rescale, Pcm, Sample, SignedSample};
use vstd::std_specs::iter::IteratorSpec;

verus! {

/// Restricts the types that may be used as the `Frame::NumChannels` associated type.
///
/// `NumChannels` ties frame types that have the same number of channels together.
pub trait NumChannels {
    /// The number of channels that the type stands for.
    spec fn count() -> nat;
}

/// A typified number of channels.
pub struct NChannels<const N: usize>;

impl<const N: usize> NumChannels for NChannels<N> {
    open spec fn count() -> nat {
        N as nat
    }
}

/// A mono frame.
pub type Mono<S> = [S; 1];

/// A stereo frame.
pub type Stereo<S> = [S; 2];

/// Whether every channel of the frame holds a valid sample.
pub open spec fn frame_valid<F: Frame>(frame: F) -> bool {
    forall|i: int| 0 <= i < F::channel_count() ==> (#[trigger] frame.samples()[i]).valid()
}

/// Whether every channel of the signed frame holds a valid sample.
pub open spec fn signed_frame_valid<F: Frame>(frame: F::Signed) -> bool {
    forall|i: int|
        0 <= i < F::channel_count() ==> (#[trigger] F::signed_samples(frame)[i]).valid()
}

/// The amplitude of `s` in the `Signed` format of its sample type.
pub open spec fn signed_amp<S: Sample>(s: S) -> int {
    rescale(s.amp(), S::depth(), <S::Signed as Pcm>::depth())
}

/// The amplitude `add_amp` gives to `s` offset by `amp`.
pub open spec fn offset_amp_spec<S: Sample>(s: S, amp: S::Signed) -> int {
    rescale(signed_amp(s) + amp.amp(), <S::Signed as Pcm>::depth(), S::depth())
}

/// Whether `s` can be offset by `amp` without the sum leaving the `Signed` format.
pub open spec fn can_offset<S: Sample>(s: S, amp: S::Signed) -> bool {
    amp_in_range(signed_amp(s) + amp.amp(), <S::Signed as Pcm>::depth())
}

/// Whether every channel of the frame is valid and at equilibrium.
pub open spec fn at_equilibrium<F: Frame>(frame: F) -> bool {
    forall|i: int|
        0 <= i < F::channel_count() ==> {
            &&& (#[trigger] frame.samples()[i]).valid()
            &&& frame.samples()[i].amp() == 0
        }
}

/// The frame with every channel at equilibrium.
pub open spec fn equilibrium_frame<F: Frame>() -> F {
    choose|f: F| at_equilibrium(f)
}

/// Two frames whose channels are valid and of equal amplitudes are the same frame.
pub proof fn lemma_same_amps<F: Frame>(a: F, b: F)
    requires
        forall|i: int|
            0 <= i < F::channel_count() ==> {
                &&& (#[trigger] a.samples()[i]).valid()
                &&& b.samples()[i].valid()
                &&& a.samples()[i].amp() == b.samples()[i].amp()
            },
    ensures
        a == b,
{
    a.lemma_len();
    b.lemma_len();
    assert forall|i: int| 0 <= i < F::channel_count() implies a.samples()[i] == b.samples()[i] by {
        a.samples()[i].lemma_amp_injective(b.samples()[i]);
    }
    assert(a.samples() =~= b.samples());
    a.lemma_samples_injective(b);
}

/// A frame at equilibrium is the equilibrium frame.
pub proof fn lemma_equilibrium_frame<F: Frame>(frame: F)
    requires
        at_equilibrium(frame),
    ensures
        frame == equilibrium_frame::<F>(),
{
    let e = equilibrium_frame::<F>();
    assert(at_equilibrium(e));
    lemma_same_amps(frame, e);
}

/// Summing a silent signed frame onto a frame leaves the frame as it was.
pub proof fn law_add_silence<F: Frame>(frame: F, silence: F::Signed, sum: F)
    requires
        frame_valid(frame),
        forall|i: int|
            0 <= i < F::channel_count() ==> (#[trigger] F::signed_samples(silence)[i]).amp() == 0,
        is_sum(frame, silence, sum),
    ensures
        sum == frame,
{
    <F::Sample as Sample>::lemma_signed_depth();
    assert forall|i: int| 0 <= i < F::channel_count() implies (#[trigger] sum.samples()[i]).amp()
        == frame.samples()[i].amp() by {
        assert(F::signed_samples(silence)[i].amp() == 0);
        crate::sample::lemma_widen_narrow(
            frame.samples()[i].amp(),
            <F::Sample as Pcm>::depth(),
            <<F::Sample as Sample>::Signed as Pcm>::depth(),
        );
    }
    lemma_same_amps(sum, frame);
}

/// Whether `other` can be summed onto `frame` channel by channel: both are valid, and every sum
/// fits the `Signed` format.
pub open spec fn can_add<F: Frame>(frame: F, other: F::Signed) -> bool {
    &&& frame_valid(frame)
    &&& signed_frame_valid::<F>(other)
    &&& forall|i: int|
        0 <= i < F::channel_count() ==> can_offset(
            #[trigger] frame.samples()[i],
            F::signed_samples(other)[i],
        )
}

/// Whether `sum` is `other` summed onto `frame` channel by channel.
pub open spec fn is_sum<F: Frame>(frame: F, other: F::Signed, sum: F) -> bool {
    forall|i: int|
        0 <= i < F::channel_count() ==> {
            &&& (#[trigger] sum.samples()[i]).valid()
            &&& sum.samples()[i].amp() == offset_amp_spec(
                frame.samples()[i],
                F::signed_samples(other)[i],
            )
        }
}

/// The frame that is `other` summed onto `frame` channel by channel.
pub open spec fn sum_frame<F: Frame>(frame: F, other: F::Signed) -> F {
    choose|sum: F| is_sum(frame, other, sum)
}

/// A sum of two frames is the sum frame.
pub proof fn lemma_sum_frame<F: Frame>(frame: F, other: F::Signed, sum: F)
    requires
        is_sum(frame, other, sum),
    ensures
        sum == sum_frame(frame, other),
{
    let chosen = sum_frame(frame, other);
    assert(is_sum(frame, other, chosen));
    lemma_same_amps(sum, chosen);
}

/// Whether every channel of `frame` is valid and can be offset by `amp`.
pub open spec fn can_offset_frame<F: Frame>(frame: F, amp: <F::Sample as Sample>::Signed) -> bool {
    &&& frame_valid(frame)
    &&& amp.valid()
    &&& forall|i: int| 0 <= i < F::channel_count() ==> can_offset(#[trigger] frame.samples()[i], amp)
}

/// Whether `out` is `frame` with every channel offset by `amp`.
pub open spec fn is_offset<F: Frame>(frame: F, amp: <F::Sample as Sample>::Signed, out: F) -> bool {
    forall|i: int|
        0 <= i < F::channel_count() ==> {
            &&& (#[trigger] out.samples()[i]).valid()
            &&& out.samples()[i].amp() == offset_amp_spec(frame.samples()[i], amp)
        }
}

/// The frame that is `frame` with every channel offset by `amp`.
pub open spec fn offset_frame<F: Frame>(frame: F, amp: <F::Sample as Sample>::Signed) -> F {
    choose|out: F| is_offset(frame, amp, out)
}

/// An offset frame is the offset frame.
pub proof fn lemma_offset_frame<F: Frame>(frame: F, amp: <F::Sample as Sample>::Signed, out: F)
    requires
        is_offset(frame, amp, out),
    ensures
        out == offset_frame(frame, amp),
{
    let chosen = offset_frame(frame, amp);
    assert(is_offset(frame, amp, chosen));
    lemma_same_amps(out, chosen);
}

/// Represents one sample from each channel at a single discrete instance in time within a
/// PCM signal.
pub trait Frame: Copy + Sized {
    /// The type of PCM sample stored at each channel within the frame.
    type Sample: Sample;

    /// A typified version of the number of channels in the `Frame`.
    type NumChannels: NumChannels;

    /// A frame type with the same number of channels using the associated `Sample::Signed`
    /// format.
    type Signed: Copy;

    /// The samples of the frame, from channel 0 upwards.
    spec fn samples(self) -> Seq<Self::Sample>;

    /// The samples of a frame of the `Signed` type.
    spec fn signed_samples(signed: Self::Signed) -> Seq<<Self::Sample as Sample>::Signed>;

    /// The total number of channels within the frame.
    spec fn channel_count() -> nat;

    /// A frame holds exactly one sample per channel.
    proof fn lemma_len(self)
        ensures
            self.samples().len() == Self::channel_count(),
    ;

    /// Frame types with the same `NumChannels` have the same number of channels.
    proof fn lemma_channel_count()
        ensures
            Self::channel_count() == <Self::NumChannels as NumChannels>::count(),
    ;

    /// The samples identify a frame.
    proof fn lemma_samples_injective(self, other: Self)
        requires
            self.samples() == other.samples(),
        ensures
            self == other,
    ;

    /// A signed frame holds exactly one sample per channel.
    proof fn lemma_signed_len(signed: Self::Signed)
        ensures
            Self::signed_samples(signed).len() == Self::channel_count(),
    ;

    /// The total number of channels within the frame.
    fn num_channels() -> (r: usize)
        ensures
            r == Self::channel_count(),
    ;

    /// The frame with every channel at the sample type's equilibrium.
    fn equilibrium() -> (r: Self)
        ensures
            forall|i: int| 0 <= i < Self::channel_count() ==> (#[trigger] r.samples()[i]).valid(),
            forall|i: int| 0 <= i < Self::channel_count() ==> (#[trigger] r.samples()[i]).amp() == 0,
    ;

    /// Yields a reference to the `Sample` of the channel at the given index if there is one.
    fn channel(&self, idx: usize) -> (r: Option<&Self::Sample>)
        ensures
            r is Some <==> idx < Self::channel_count(),
            r matches Some(s) ==> *s == self.samples()[idx as int],
    ;

    /// Yields a mutable reference to the `Sample` of the channel at the given index if there is
    /// one.
    fn channel_mut(&mut self, idx: usize) -> (r: Option<&mut Self::Sample>)
        ensures
            r is Some <==> idx < Self::channel_count(),
            r matches Some(s) ==> {
                &&& *s == old(self).samples()[idx as int]
                &&& final(self).samples() == old(self).samples().update(idx as int, *final(s))
            },
            r is None ==> *final(self) == *old(self),
    ;

    /// Returns an iterator yielding mutable references to the sample of each channel in the
    /// frame, from the first channel to the last.
    fn channels_mut(&mut self) -> (r: ChannelsMut<'_, Self::Sample>)
        ensures
            r.remaining@ == old(self).samples(),
            final(self).samples() == final(r.remaining)@,
    ;

    /// Replaces the sample of the channel at the given index, if there is one, and returns
    /// whether there was.
    fn set_channel(&mut self, idx: usize, sample: Self::Sample) -> (r: bool)
        ensures
            r == (idx < Self::channel_count()),
            r ==> final(self).samples() == old(self).samples().update(idx as int, sample),
            !r ==> *final(self) == *old(self),
    ;

    /// Converts the frame type to the equivalent frame in its associated `Signed` format.
    fn to_signed_frame(self) -> (r: Self::Signed)
        requires
            forall|i: int| 0 <= i < Self::channel_count() ==> (#[trigger] self.samples()[i]).valid(),
        ensures
            forall|i: int| 0 <= i < Self::channel_count() ==> (#[trigger] Self::signed_samples(r)[i]).valid(),
            forall|i: int|
                0 <= i < Self::channel_count() ==> (#[trigger] Self::signed_samples(r)[i]).amp()
                    == signed_amp(self.samples()[i]),
    ;

    /// Offsets the amplitude of every channel in the frame by the given `offset` and yields the
    /// resulting frame.
    fn offset_amp(self, offset: <Self::Sample as Sample>::Signed) -> (r: Self)
        requires
            forall|i: int| 0 <= i < Self::channel_count() ==> (#[trigger] self.samples()[i]).valid(),
            offset.valid(),
            forall|i: int|
                0 <= i < Self::channel_count() ==> can_offset(#[trigger] self.samples()[i], offset),
        ensures
            forall|i: int| 0 <= i < Self::channel_count() ==> (#[trigger] r.samples()[i]).valid(),
            forall|i: int|
                0 <= i < Self::channel_count() ==> (#[trigger] r.samples()[i]).amp()
                    == offset_amp_spec(self.samples()[i], offset),
    ;

    /// Sums each channel in `other` with each channel in `self` and returns the resulting
    /// `Frame`.
    fn add_amp(self, other: Self::Signed) -> (r: Self)
        requires
            forall|i: int| 0 <= i < Self::channel_count() ==> (#[trigger] self.samples()[i]).valid(),
            forall|i: int| 0 <= i < Self::channel_count() ==> (#[trigger] Self::signed_samples(other)[i]).valid(),
            forall|i: int|
                0 <= i < Self::channel_count() ==> can_offset(
                    #[trigger] self.samples()[i],
                    Self::signed_samples(other)[i],
                ),
        ensures
            forall|i: int| 0 <= i < Self::channel_count() ==> (#[trigger] r.samples()[i]).valid(),
            forall|i: int|
                0 <= i < Self::channel_count() ==> (#[trigger] r.samples()[i]).amp()
                    == offset_amp_spec(self.samples()[i], Self::signed_samples(other)[i]),
    ;
}

/// Provides, for every `Frame`, the operations built on its channels.
pub trait FrameChannels: Frame {
    /// Create a new `Frame` where the `Sample` for each channel is produced by the given
    /// function, called with each channel index in turn.
    fn from_fn<G>(from: G) -> (r: Self)
        where
            G: FnMut(usize) -> Self::Sample,
        requires
            forall|i: usize| i < Self::channel_count() ==> #[trigger] call_requires(from, (i,)),
        ensures
            forall|i: usize| i < Self::channel_count() ==> call_ensures(from, (i,), #[trigger] r.samples()[i as int]),
    ;

    /// Create a new `Frame` from a borrowed `Iterator` yielding samples for each channel.
    ///
    /// Returns `None` if the given `Iterator` does not yield enough `Sample`s; it has then been
    /// run to its end.
    fn from_samples<I>(samples: &mut I) -> (r: Option<Self>)
        where
            I: Iterator<Item = Self::Sample>,
        requires
            <I as IteratorSpec>::obeys_prophetic_iter_laws(old(samples)),
        ensures
            <I as IteratorSpec>::obeys_prophetic_iter_laws(final(samples)),
            <I as IteratorSpec>::remaining(old(samples)).len() >= Self::channel_count() ==> {
                &&& r is Some
                &&& r->0.samples() == <I as IteratorSpec>::remaining(old(samples)).take(Self::channel_count() as int)
                &&& <I as IteratorSpec>::remaining(final(samples)) == <I as IteratorSpec>::remaining(old(samples)).skip(Self::channel_count() as int)
            },
            <I as IteratorSpec>::remaining(old(samples)).len() < Self::channel_count() ==> {
                &&& r is None
                &&& <I as IteratorSpec>::remaining(final(samples)).len() == 0
            },
    ;

    /// Applies the given function to each sample in the `Frame` in channel order and returns the
    /// result as a new `Frame`.
    fn map<F, M>(self, map: M) -> (r: F)
        where
            F: Frame<NumChannels = Self::NumChannels>,
            M: FnMut(Self::Sample) -> F::Sample,
        requires
            forall|i: int| 0 <= i < Self::channel_count() ==> call_requires(map, (#[trigger] self.samples()[i],)),
        ensures
            forall|i: int|
                0 <= i < Self::channel_count() ==> call_ensures(map, (self.samples()[i],), #[trigger] r.samples()[i]),
    ;

    /// Calls the given function with the pair of samples at every channel and returns the
    /// resulting `Frame`.
    fn zip_map<O, F, M>(self, other: O, zip_map: M) -> (r: F)
        where
            O: Frame<NumChannels = Self::NumChannels>,
            F: Frame<NumChannels = Self::NumChannels>,
            M: FnMut(Self::Sample, O::Sample) -> F::Sample,
        requires
            forall|i: int|
                0 <= i < Self::channel_count() ==> call_requires(
                    zip_map,
                    (#[trigger] self.samples()[i], other.samples()[i]),
                ),
        ensures
            forall|i: int|
                0 <= i < Self::channel_count() ==> call_ensures(
                    zip_map,
                    (self.samples()[i], other.samples()[i]),
                    #[trigger] r.samples()[i],
                ),
    ;

    /// Returns an iterator yielding references to each sample in the frame.
    fn channels_ref(&self) -> (r: ChannelsRef<'_, Self>)
        ensures
            r.wf(),
            r.remaining() == self.samples(),
    ;

    /// Converts the frame into an iterator yielding the sample for each channel in the frame.
    fn channels(self) -> (r: Channels<Self>)
        ensures
            r.wf(),
            r.remaining() == self.samples(),
    ;
}

impl<T: Frame> FrameChannels for T {
    fn from_fn<G>(mut from: G) -> (r: Self)
        where
            G: FnMut(usize) -> Self::Sample,
    {
        let mut r = Self::equilibrium();
        proof {
            r.lemma_len();
        }
        let ghost initial = from;
        let n = Self::num_channels();
        let mut i: usize = 0;
        while i < n
            invariant
                from == initial,
                n == Self::channel_count(),
                i <= n,
                r.samples().len() == n,
                forall|j: usize| j < n ==> #[trigger] call_requires(from, (j,)),
                forall|j: usize| j < i ==> call_ensures(from, (j,), #[trigger] r.samples()[j as int]),
            decreases n - i,
        {
            let s = from(i);
            let ghost before = r.samples();
            r.set_channel(i, s);
            proof {
                r.lemma_len();
                assert forall|j: usize| j < i + 1 implies call_ensures(from, (j,), #[trigger] r.samples()[j as int]) by {
                    if j < i {
                        assert(r.samples()[j as int] == before[j as int]);
                    }
                }
            }
            i = i + 1;
        }
        r
    }

    fn from_samples<I>(samples: &mut I) -> (r: Option<Self>)
        where
            I: Iterator<Item = Self::Sample>,
    {
        let mut r = Self::equilibrium();
        proof {
            r.lemma_len();
        }
        let ghost start = <I as IteratorSpec>::remaining(samples);
        let n = Self::num_channels();
        let mut i: usize = 0;
        while i < n
            invariant
                n == Self::channel_count(),
                i <= n,
                i <= start.len(),
                r.samples().len() == n,
                start == <I as IteratorSpec>::remaining(old(samples)),
                <I as IteratorSpec>::obeys_prophetic_iter_laws(samples),
                <I as IteratorSpec>::remaining(samples) == start.skip(i as int),
                forall|j: int| 0 <= j < i ==> #[trigger] r.samples()[j] == start[j],
            decreases n - i,
        {
            match samples.next() {
                Some(s) => {
                    let ghost before = r.samples();
                    r.set_channel(i, s);
                    proof {
                        r.lemma_len();
                        assert forall|j: int| 0 <= j < i + 1 implies #[trigger] r.samples()[j] == start[j] by {
                            if j < i {
                                assert(r.samples()[j] == before[j]);
                            }
                        }
                        assert(<I as IteratorSpec>::remaining(samples) =~= start.skip(i + 1));
                    }
                    i = i + 1;
                },
                None => {
                    assert(start.skip(i as int).len() == start.len() - i);
                    return None;
                },
            }
        }
        assert(r.samples() =~= start.take(n as int));
        Some(r)
    }

    fn map<F, M>(self, mut map: M) -> (r: F)
        where
            F: Frame<NumChannels = Self::NumChannels>,
            M: FnMut(Self::Sample) -> F::Sample,
    {
        proof {
            Self::lemma_channel_count();
            F::lemma_channel_count();
            self.lemma_len();
        }
        let mut r = F::equilibrium();
        proof {
            r.lemma_len();
        }
        let ghost initial = map;
        let n = Self::num_channels();
        let mut i: usize = 0;
        while i < n
            invariant
                map == initial,
                n == Self::channel_count(),
                n == F::channel_count(),
                i <= n,
                self.samples().len() == n,
                r.samples().len() == n,
                forall|j: int| 0 <= j < n ==> call_requires(map, (#[trigger] self.samples()[j],)),
                forall|j: int| 0 <= j < i ==> call_ensures(map, (self.samples()[j],), #[trigger] r.samples()[j]),
            decreases n - i,
        {
            let s = *self.channel(i).unwrap();
            let out = map(s);
            let ghost before = r.samples();
            r.set_channel(i, out);
            proof {
                r.lemma_len();
                assert forall|j: int| 0 <= j < i + 1 implies call_ensures(map, (self.samples()[j],), #[trigger] r.samples()[j]) by {
                    if j < i {
                        assert(r.samples()[j] == before[j]);
                    }
                }
            }
            i = i + 1;
        }
        r
    }

    fn zip_map<O, F, M>(self, other: O, mut zip_map: M) -> (r: F)
        where
            O: Frame<NumChannels = Self::NumChannels>,
            F: Frame<NumChannels = Self::NumChannels>,
            M: FnMut(Self::Sample, O::Sample) -> F::Sample,
    {
        proof {
            Self::lemma_channel_count();
            O::lemma_channel_count();
            F::lemma_channel_count();
            self.lemma_len();
            other.lemma_len();
        }
        let mut r = F::equilibrium();
        proof {
            r.lemma_len();
        }
        let ghost initial = zip_map;
        let n = Self::num_channels();
        let mut i: usize = 0;
        while i < n
            invariant
                zip_map == initial,
                n == Self::channel_count(),
                n == O::channel_count(),
                n == F::channel_count(),
                i <= n,
                self.samples().len() == n,
                other.samples().len() == n,
                r.samples().len() == n,
                forall|j: int|
                    0 <= j < n ==> call_requires(zip_map, (#[trigger] self.samples()[j], other.samples()[j])),
                forall|j: int|
                    0 <= j < i ==> call_ensures(
                        zip_map,
                        (self.samples()[j], other.samples()[j]),
                        #[trigger] r.samples()[j],
                    ),
            decreases n - i,
        {
            let a = *self.channel(i).unwrap();
            let b = *other.channel(i).unwrap();
            let out = zip_map(a, b);
            let ghost before = r.samples();
            r.set_channel(i, out);
            proof {
                r.lemma_len();
                assert forall|j: int| 0 <= j < i + 1 implies call_ensures(
                    zip_map,
                    (self.samples()[j], other.samples()[j]),
                    #[trigger] r.samples()[j],
                ) by {
                    if j < i {
                        assert(r.samples()[j] == before[j]);
                    }
                }
            }
            i = i + 1;
        }
        r
    }

    fn channels_ref(&self) -> (r: ChannelsRef<'_, Self>) {
        let r = ChannelsRef { next_idx: 0, frame: self };
        assert(r.remaining() =~= self.samples());
        r
    }

    fn channels(self) -> (r: Channels<Self>) {
        let r = Channels { next_idx: 0, frame: self };
        assert(r.remaining() =~= self.samples());
        assert(r.wf());
        r
    }
}

/// An iterator that yields the sample for each channel in the frame by value.
#[derive(Clone)]
pub struct Channels<F> {
    next_idx: usize,
    frame: F,
}

impl<F: Frame> Channels<F> {
    /// The samples still to be yielded.
    pub closed spec fn remaining(&self) -> Seq<F::Sample> {
        self.frame.samples().skip(self.next_idx as int)
    }

    /// The next channel lies at most one past the last.
    pub closed spec fn wf(&self) -> bool {
        self.next_idx <= F::channel_count()
    }

    /// Yields the sample of the next channel, or `None` once every channel has been yielded.
    pub fn next(&mut self) -> (r: Option<F::Sample>)
        requires
            old(self).wf(),
        ensures
            final(self).wf(),
            old(self).remaining().len() == 0 ==> r is None && final(self).remaining() == old(self).remaining(),
            old(self).remaining().len() > 0 ==> {
                &&& r == Some(old(self).remaining()[0])
                &&& final(self).remaining() == old(self).remaining().drop_first()
            },
    {
        proof {
            self.frame.lemma_len();
        }
        let n = F::num_channels();
        if self.next_idx < n {
            let s = *self.frame.channel(self.next_idx).unwrap();
            self.next_idx = self.next_idx + 1;
            assert(self.remaining() =~= old(self).remaining().drop_first());
            Some(s)
        } else {
            None
        }
    }

    /// The number of samples still to be yielded.
    pub fn len(&self) -> (r: usize)
        requires
            self.wf(),
        ensures
            r == self.remaining().len(),
    {
        proof {
            self.frame.lemma_len();
        }
        F::num_channels() - self.next_idx
    }
}

/// An iterator that yields a reference to the sample for each channel in the frame.
pub struct ChannelsRef<'a, F> {
    next_idx: usize,
    frame: &'a F,
}

impl<'a, F: Frame> ChannelsRef<'a, F> {
    /// The samples still to be yielded.
    pub closed spec fn remaining(&self) -> Seq<F::Sample> {
        self.frame.samples().skip(self.next_idx as int)
    }

    /// The next channel lies at most one past the last.
    pub closed spec fn wf(&self) -> bool {
        self.next_idx <= F::channel_count()
    }

    /// Yields a reference to the sample of the next channel, or `None` once every channel has
    /// been yielded.
    pub fn next(&mut self) -> (r: Option<&'a F::Sample>)
        requires
            old(self).wf(),
        ensures
            final(self).wf(),
            old(self).remaining().len() == 0 ==> r is None && final(self).remaining() == old(self).remaining(),
            old(self).remaining().len() > 0 ==> {
                &&& r is Some
                &&& *r->0 == old(self).remaining()[0]
                &&& final(self).remaining() == old(self).remaining().drop_first()
            },
    {
        proof {
            self.frame.lemma_len();
        }
        let n = F::num_channels();
        if self.next_idx < n {
            let s = self.frame.channel(self.next_idx).unwrap();
            self.next_idx = self.next_idx + 1;
            assert(self.remaining() =~= old(self).remaining().drop_first());
            Some(s)
        } else {
            None
        }
    }

    /// The number of samples still to be yielded.
    pub fn len(&self) -> (r: usize)
        requires
            self.wf(),
        ensures
            r == self.remaining().len(),
    {
        proof {
            self.frame.lemma_len();
        }
        F::num_channels() - self.next_idx
    }
}

/// Calls `core::slice::from_mut`: the slice of length one over `x`. What is written through the
/// slice is written to `x`.
#[verifier::external_body]
pub(crate) fn slice_of_one_mut<T>(x: &mut T) -> (r: &mut [T])
    ensures
        r@ == seq![*old(x)],
        final(r)@ == seq![*final(x)],
{
    core::slice::from_mut(x)
}

/// An iterator that yields a mutable reference to the sample for each channel in the frame.
///
/// What is written through a yielded reference is written to the frame.
pub struct ChannelsMut<'a, S> {
    /// The samples of the channels not yet yielded, in channel order.
    pub remaining: &'a mut [S],
}

impl<'a, S> ChannelsMut<'a, S> {
    /// Yields a mutable reference to the sample of the next channel, or `None` once every
    /// channel has been yielded.
    pub fn next(&mut self) -> (r: Option<&'a mut S>)
        ensures
            old(self).remaining@.len() == 0 ==> {
                &&& r is None
                &&& final(self).remaining@ == old(self).remaining@
                &&& final(old(self).remaining)@ == final(final(self).remaining)@
            },
            old(self).remaining@.len() > 0 ==> {
                &&& r is Some
                &&& *r->0 == old(self).remaining@[0]
                &&& final(self).remaining@ == old(self).remaining@.drop_first()
                &&& final(old(self).remaining)@ == seq![*final(r->0)] + final(final(self).remaining)@
            },
    {
        let mut taken: &'a mut [S] = &mut [];
        core::mem::swap(&mut taken, &mut self.remaining);
        if taken.len() == 0 {
            self.remaining = taken;
            return None;
        }
        let (first, rest) = taken.split_at_mut(1);
        self.remaining = rest;
        first.first_mut()
    }

    /// Yields a mutable reference to the sample of the last channel not yet yielded, or `None`
    /// once every channel has been yielded.
    pub fn next_back(&mut self) -> (r: Option<&'a mut S>)
        ensures
            old(self).remaining@.len() == 0 ==> {
                &&& r is None
                &&& final(self).remaining@ == old(self).remaining@
                &&& final(old(self).remaining)@ == final(final(self).remaining)@
            },
            old(self).remaining@.len() > 0 ==> {
                &&& r is Some
                &&& *r->0 == old(self).remaining@.last()
                &&& final(self).remaining@ == old(self).remaining@.drop_last()
                &&& final(old(self).remaining)@ == final(final(self).remaining)@.push(*final(r->0))
            },
    {
        let mut taken: &'a mut [S] = &mut [];
        core::mem::swap(&mut taken, &mut self.remaining);
        let n = taken.len();
        if n == 0 {
            self.remaining = taken;
            return None;
        }
        let (rest, last) = taken.split_at_mut(n - 1);
        self.remaining = rest;
        last.first_mut()
    }

    /// The number of samples still to be yielded.
    pub fn len(&self) -> (r: usize)
        ensures
            r == old(self.remaining)@.len(),
    {
        self.remaining.len()
    }
}

impl<S: Sample, const N: usize> Frame for [S; N] {
    type Sample = S;

    type NumChannels = NChannels<N>;

    type Signed = [S::Signed; N];

    open spec fn samples(self) -> Seq<S> {
        self@
    }

    open spec fn signed_samples(signed: [S::Signed; N]) -> Seq<S::Signed> {
        signed@
    }

    open spec fn channel_count() -> nat {
        N as nat
    }

    proof fn lemma_len(self) {
    }

    proof fn lemma_signed_len(signed: [S::Signed; N]) {
    }

    proof fn lemma_channel_count() {
    }

    proof fn lemma_samples_injective(self, other: Self) {
        assert(self@ =~= other@);
    }

    fn num_channels() -> (r: usize) {
        N
    }

    fn equilibrium() -> (r: Self) {
        let r = [S::equilibrium(); N];
        assert(forall|i: int| 0 <= i < N ==> r@[i] == r[i]);
        r
    }

    fn channel(&self, idx: usize) -> (r: Option<&S>) {
        if idx < N {
            Some(&self[idx])
        } else {
            None
        }
    }

    fn channel_mut(&mut self, idx: usize) -> (r: Option<&mut S>) {
        if idx < N {
            Some(&mut self[idx])
        } else {
            None
        }
    }

    fn channels_mut(&mut self) -> (r: ChannelsMut<'_, S>) {
        let remaining: &mut [S] = self;
        ChannelsMut { remaining }
    }

    fn set_channel(&mut self, idx: usize, sample: S) -> (r: bool) {
        if idx < N {
            self[idx] = sample;
            true
        } else {
            false
        }
    }

    fn to_signed_frame(self) -> (r: [S::Signed; N]) {
        assert(forall|j: int| 0 <= j < N ==> (#[trigger] self@[j]).valid() == self.samples()[j].valid());
        let mut out = [<S::Signed as SignedSample>::zero(); N];
        let mut i: usize = 0;
        while i < N
            invariant
                i <= N,
                forall|j: int| 0 <= j < N ==> (#[trigger] self@[j]).valid(),
                forall|j: int| 0 <= j < i ==> (#[trigger] out@[j]).valid() && out@[j].amp() == signed_amp(self@[j]),
                forall|j: int| i <= j < N ==> (#[trigger] out@[j]).valid(),
            decreases N - i,
        {
            out[i] = self[i].to_signed_sample();
            i = i + 1;
        }
        out
    }

    fn offset_amp(self, offset: S::Signed) -> (r: Self) {
        assert(forall|j: int| 0 <= j < N ==> (#[trigger] self@[j]).valid() == self.samples()[j].valid());
        assert(forall|j: int| 0 <= j < N ==> can_offset(#[trigger] self@[j], offset) == can_offset(self.samples()[j], offset));
        let mut out = self;
        let mut i: usize = 0;
        while i < N
            invariant
                i <= N,
                forall|j: int| 0 <= j < N ==> (#[trigger] self@[j]).valid(),
                offset.valid(),
                forall|j: int| 0 <= j < N ==> can_offset(#[trigger] self@[j], offset),
                forall|j: int| 0 <= j < i ==> (#[trigger] out@[j]).valid() && out@[j].amp() == offset_amp_spec(self@[j], offset),
                forall|j: int| i <= j < N ==> #[trigger] out@[j] == self@[j],
            decreases N - i,
        {
            out[i] = self[i].add_amp(offset);
            i = i + 1;
        }
        out
    }

    fn add_amp(self, other: [S::Signed; N]) -> (r: Self) {
        assert(forall|j: int| 0 <= j < N ==> (#[trigger] self@[j]).valid() == self.samples()[j].valid());
        assert(forall|j: int| 0 <= j < N ==> (#[trigger] other@[j]).valid() == Self::signed_samples(other)[j].valid());
        assert(forall|j: int| 0 <= j < N ==> can_offset(#[trigger] self@[j], other@[j]) == can_offset(self.samples()[j], Self::signed_samples(other)[j]));
        let mut out = self;
        let mut i: usize = 0;
        while i < N
            invariant
                i <= N,
                forall|j: int| 0 <= j < N ==> (#[trigger] self@[j]).valid(),
                forall|j: int| 0 <= j < N ==> (#[trigger] other@[j]).valid(),
                forall|j: int| 0 <= j < N ==> can_offset(#[trigger] self@[j], other@[j]),
                forall|j: int| 0 <= j < i ==> (#[trigger] out@[j]).valid() && out@[j].amp() == offset_amp_spec(self@[j], other@[j]),
                forall|j: int| i <= j < N ==> #[trigger] out@[j] == self@[j],
            decreases N - i,
        {
            out[i] = self[i].add_amp(other[i]);
            i = i + 1;
        }
        out
    }
}

} // verus!

//! Converting a signal into the interleaved samples of its frames.

use vstd::prelude::*;
use super::Signal;
use crate::frame::{Channels, Frame, FrameChannels};

verus! {

/// Converts a `Signal` into a type that yields the interleaved `Sample`s.
pub struct IntoInterleavedSamples<S: Signal> {
    signal: S,
    current_frame: Channels<S::Frame>,
}

/// Converts the `IntoInterleavedSamples` into an `Iterator` that always returns `Some`.
pub struct IntoInterleavedSamplesIterator<S: Signal> {
    samples: IntoInterleavedSamples<S>,
}

/// The sample at position `k` of the interleaved samples of the frames that `signal` yields.
pub open spec fn interleaved_sample<S: Signal>(signal: S, k: nat) -> <S::Frame as Frame>::Sample {
    let c = <S::Frame as Frame>::channel_count();
    signal.upcoming(k / c).samples()[k as int % c as int]
}

impl<S: Signal> IntoInterleavedSamples<S> {
    /// The signal whose frames are yet to be interleaved.
    pub closed spec fn source(&self) -> S {
        self.signal
    }

    /// The channels of the current frame that are yet to be yielded.
    pub closed spec fn current(&self) -> Seq<<S::Frame as Frame>::Sample> {
        self.current_frame.remaining()
    }

    /// The signal and the current frame can yield samples, and frames have channels.
    pub open spec fn wf(&self) -> bool {
        &&& self.source().wf()
        &&& self.current_wf()
        &&& <S::Frame as Frame>::channel_count() > 0
    }

    /// The current frame's channels are in order.
    pub closed spec fn current_wf(&self) -> bool {
        self.current_frame.wf()
    }

    /// The sample that the `k`-th call of `next_sample` from now yields.
    pub open spec fn upcoming_sample(&self, k: nat) -> <S::Frame as Frame>::Sample {
        if k < self.current().len() {
            self.current()[k as int]
        } else {
            interleaved_sample(self.source(), (k - self.current().len()) as nat)
        }
    }

    pub(crate) fn new(mut signal: S) -> (r: Self)
        requires
            signal.wf(),
            <S::Frame as Frame>::channel_count() > 0,
        ensures
            r.wf(),
            forall|k: nat| #[trigger] r.upcoming_sample(k) == interleaved_sample(signal, k),
    {
        let ghost start = signal;
        let first = signal.next().channels();
        let r = IntoInterleavedSamples { signal, current_frame: first };
        proof {
            let c = <S::Frame as Frame>::channel_count();
            start.upcoming(0).lemma_len();
            assert forall|k: nat| #[trigger] r.upcoming_sample(k) == interleaved_sample(start, k) by {
                lemma_interleaved_step(start, r.source(), k, c);
            }
        }
        r
    }

    /// Yield the next interleaved sample from the inner `Signal`.
    pub fn next_sample(&mut self) -> (r: <S::Frame as Frame>::Sample)
        requires
            old(self).wf(),
        ensures
            final(self).wf(),
            r == old(self).upcoming_sample(0),
            forall|k: nat| #[trigger] final(self).upcoming_sample(k) == old(self).upcoming_sample(k + 1),
    {
        let ghost before = *self;
        let c = <S::Frame as Frame>::num_channels();
        if self.current_frame.len() == 0 {
            let ghost source = self.signal;
            self.current_frame = self.signal.next().channels();
            proof {
                source.upcoming(0).lemma_len();
                assert forall|k: nat| #[trigger] self.upcoming_sample(k) == before.upcoming_sample(k) by {
                    lemma_interleaved_step(source, self.signal, k, c as nat);
                }
            }
        }
        let ghost refilled = *self;
        let r = self.current_frame.next().unwrap();
        proof {
            assert forall|k: nat| #[trigger] self.upcoming_sample(k) == refilled.upcoming_sample(k + 1) by {
            }
        }
        r
    }

    /// Convert the `IntoInterleavedSamples` into an `Iterator`.
    pub fn into_iter(self) -> (r: IntoInterleavedSamplesIterator<S>)
        ensures
            r.samples() == self,
    {
        IntoInterleavedSamplesIterator { samples: self }
    }
}

/// Interleaving the frames of `before` is yielding the samples of its first frame, then
/// interleaving the frames of `after`, the signal that follows.
proof fn lemma_interleaved_step<S: Signal>(before: S, after: S, k: nat, c: nat)
    requires
        c == <S::Frame as Frame>::channel_count(),
        c > 0,
        before.upcoming(0).samples().len() == c,
        forall|j: nat| #[trigger] after.upcoming(j) == before.upcoming(j + 1),
    ensures
        (if k < c {
            before.upcoming(0).samples()[k as int]
        } else {
            interleaved_sample(after, (k - c) as nat)
        }) == interleaved_sample(before, k),
{
    if k < c {
        vstd::arithmetic::div_mod::lemma_small_mod(k, c);
        assert(k / c == 0) by {
            vstd::arithmetic::div_mod::lemma_basic_div(k as int, c as int);
        }
    } else {
        let j = (k - c) as nat;
        vstd::arithmetic::div_mod::lemma_fundamental_div_mod(j as int, c as int);
        let q = j as int / c as int;
        assert((q + 1) * c == c * q + c) by (nonlinear_arith);
        vstd::arithmetic::div_mod::lemma_fundamental_div_mod_converse(
            k as int,
            c as int,
            j as int / c as int + 1,
            j as int % c as int,
        );
        assert(after.upcoming(j / c) == before.upcoming(j / c + 1));
    }
}

impl<S: Signal> IntoInterleavedSamplesIterator<S> {
    /// The interleaved samples being iterated over.
    pub closed spec fn samples(&self) -> IntoInterleavedSamples<S> {
        self.samples
    }

    /// Yields the next interleaved sample: there always is one.
    pub fn next(&mut self) -> (r: Option<<S::Frame as Frame>::Sample>)
        requires
            old(self).samples().wf(),
        ensures
            final(self).samples().wf(),
            r == Some(old(self).samples().upcoming_sample(0)),
            forall|k: nat| #[trigger] final(self).samples().upcoming_sample(k) == old(
                self,
            ).samples().upcoming_sample(k + 1),
    {
        Some(self.samples.next_sample())
    }
}

} // verus!

//! Signals made from a list of frames, from a list of interleaved samples, and from a seed.

use vstd::prelude::*;
use super::Signal;
use crate::frame::{equilibrium_frame, lemma_equilibrium_frame, Frame};

verus! {

/// A type that converts a list of frames into a `Signal`: the frames in order, then
/// equilibrium for ever.
#[derive(Clone)]
pub struct FromIterator<F> {
    frames: Vec<F>,
    next: usize,
}

/// Converts a list of frames into a `Signal`, which yields equilibrium frames once the frames
/// run out.
pub fn from_iter<F: Frame>(frames: Vec<F>) -> (r: FromIterator<F>)
    ensures
        r.wf(),
        r.remaining() == frames@,
{
    FromIterator { frames, next: 0 }
}

impl<F> FromIterator<F> {
    /// The frames still to be yielded.
    pub closed spec fn remaining(&self) -> Seq<F> {
        self.frames@.skip(self.next as int)
    }

    /// The position of the next frame lies within the list, or at its end.
    pub closed spec fn position_wf(&self) -> bool {
        self.next <= self.frames@.len()
    }
}

impl<F: Frame> Signal for FromIterator<F> {
    type Frame = F;

    open spec fn wf(&self) -> bool {
        self.position_wf()
    }

    open spec fn upcoming(&self, k: nat) -> F {
        if k < self.remaining().len() {
            self.remaining()[k as int]
        } else {
            equilibrium_frame::<F>()
        }
    }

    open spec fn exhausted(&self) -> bool {
        self.remaining().len() == 0
    }

    fn next(&mut self) -> (r: F)
        ensures
            old(self).remaining().len() > 0 ==> final(self).remaining() == old(self).remaining().drop_first(),
            old(self).remaining().len() == 0 ==> final(self).remaining() == old(self).remaining(),
    {
        if self.next < self.frames.len() {
            let frame = self.frames[self.next];
            self.next = self.next + 1;
            frame
        } else {
            let r = F::equilibrium();
            proof {
                lemma_equilibrium_frame(r);
            }
            r
        }
    }

    fn is_exhausted(&self) -> (r: bool) {
        self.next >= self.frames.len()
    }
}

/// The frame whose channels hold `samples`.
pub open spec fn frame_of<F: Frame>(samples: Seq<F::Sample>) -> F {
    choose|f: F| f.samples() == samples
}

/// Builds the frame whose channels hold the samples of `samples` from `start` on.
fn gather_frame<F: Frame>(samples: &Vec<F::Sample>, start: usize) -> (r: F)
    requires
        start + F::channel_count() <= samples@.len(),
    ensures
        r.samples() == samples@.subrange(start as int, start + F::channel_count()),
        r == frame_of::<F>(samples@.subrange(start as int, start + F::channel_count())),
{
    let n = F::num_channels();
    let len = samples.len();
    let mut frame = F::equilibrium();
    proof {
        frame.lemma_len();
    }
    let mut i: usize = 0;
    while i < n
        invariant
            i <= n,
            n == F::channel_count(),
            len == samples@.len(),
            start + n <= len,
            frame.samples().len() == n,
            forall|j: int| 0 <= j < i ==> #[trigger] frame.samples()[j] == samples@[start + j],
        decreases n - i,
    {
        frame.set_channel(i, samples[start + i]);
        proof {
            frame.lemma_len();
        }
        i = i + 1;
    }
    proof {
        let s = samples@.subrange(start as int, start + n);
        assert(frame.samples() =~= s);
        let chosen = frame_of::<F>(s);
        assert(chosen.samples() == s);
        frame.lemma_samples_injective(chosen);
    }
    frame
}

/// An iterator that converts a list of interleaved samples into a `Signal`: a frame for every
/// whole group of as many samples as there are channels, then equilibrium for ever.
#[derive(Clone)]
pub struct FromInterleavedSamplesIterator<F: Frame> {
    samples: Vec<F::Sample>,
    next: usize,
}

/// Converts a list of interleaved samples into a `Signal`.
///
/// Samples that do not fill a whole frame at the end of the list are never yielded.
pub fn from_interleaved_samples_iter<F: Frame>(samples: Vec<F::Sample>) -> (r:
    FromInterleavedSamplesIterator<F>)
    requires
        F::channel_count() > 0,
    ensures
        r.wf(),
        r.remaining() == samples@,
{
    FromInterleavedSamplesIterator { samples, next: 0 }
}

impl<F: Frame> FromInterleavedSamplesIterator<F> {
    /// The samples still to be yielded.
    pub closed spec fn remaining(&self) -> Seq<F::Sample> {
        self.samples@.skip(self.next as int)
    }

    /// The position of the next sample lies within the list, or at its end.
    pub closed spec fn position_wf(&self) -> bool {
        self.next <= self.samples@.len()
    }
}

impl<F: Frame> Signal for FromInterleavedSamplesIterator<F> {
    type Frame = F;

    open spec fn wf(&self) -> bool {
        self.position_wf() && F::channel_count() > 0
    }

    open spec fn upcoming(&self, k: nat) -> F {
        let c = F::channel_count();
        if (k + 1) * c <= (*self).remaining().len() {
            frame_of::<F>(self.remaining().subrange((k * c) as int, ((k + 1) * c) as int))
        } else {
            equilibrium_frame::<F>()
        }
    }

    open spec fn exhausted(&self) -> bool {
        self.remaining().len() < F::channel_count()
    }

    fn next(&mut self) -> (r: F)
        ensures
            old(self).remaining().len() >= F::channel_count() ==> final(self).remaining()
                == old(self).remaining().skip(F::channel_count() as int),
            old(self).remaining().len() < F::channel_count() ==> final(self).remaining() == old(self).remaining(),
    {
        let c = F::num_channels();
        let ghost before = *self;
        if self.samples.len() - self.next >= c {
            let frame = gather_frame::<F>(&self.samples, self.next);
            self.next = self.next + c;
            proof {
                assert(0 * c == 0 && (0 + 1) * c == c) by (nonlinear_arith);
                assert(before.remaining().subrange(0, c as int) =~= before.samples@.subrange(
                    before.next as int,
                    before.next + c,
                ));
                assert forall|k: nat| #[trigger] (*self).upcoming(k) == before.upcoming(k + 1) by {
                    assert((k + 1 + 1) * c == (k + 1) * c + c) by (nonlinear_arith);
                    assert(k * c + c == (k + 1) * c) by (nonlinear_arith);
                    if (k + 1) * c <= (*self).remaining().len() {
                        assert(self.remaining().subrange((k * c) as int, ((k + 1) * c) as int) =~= before.remaining().subrange(
                            ((k + 1) * c) as int,
                            ((k + 1 + 1) * c) as int,
                        ));
                    }
                }
            }
            frame
        } else {
            let r = F::equilibrium();
            proof {
                lemma_equilibrium_frame(r);
                assert((0 + 1) * c == c) by (nonlinear_arith);
                assert((0 + 1) * c == c) by (nonlinear_arith);
                assert forall|k: nat| #[trigger] (*self).upcoming(k) == before.upcoming(k + 1) by {
                    assert((k + 1) * c >= c) by (nonlinear_arith)
                        requires
                            c > 0,
                    ;
                    assert((k + 1 + 1) * c >= c) by (nonlinear_arith)
                        requires
                            c > 0,
                    ;
                }
            }
            r
        }
    }

    fn is_exhausted(&self) -> (r: bool) {
        self.samples.len() - self.next < F::num_channels()
    }
}

/// The 31-bit value from which `Noise` makes the sample for `seed`: an integer hash of the
/// seed.
pub open spec fn noise_value(seed: u64) -> u64 {
    let x = (seed << 13u64) ^ seed;
    let inner = vstd::wrapping::u64_specs::wrapping_add(
        vstd::wrapping::u64_specs::wrapping_mul(vstd::wrapping::u64_specs::wrapping_mul(x, x), 15_731),
        789_221,
    );
    vstd::wrapping::u64_specs::wrapping_add(
        vstd::wrapping::u64_specs::wrapping_mul(x, inner),
        1_376_312_589,
    ) & 0x7fff_ffff
}

/// A noise signal generator: each sample is `1 - v / 2^30` for the value `v` that the running
/// seed hashes to.
#[derive(Clone)]
pub struct Noise {
    seed: u64,
}

/// Produces a `Signal` that yields random values between -1.0..1.0, starting from `seed`.
pub fn noise(seed: u64) -> (r: Noise)
    ensures
        r.seed() == seed,
{
    Noise { seed }
}

impl Noise {
    /// The seed of the next sample.
    pub closed spec fn seed(&self) -> u64 {
        self.seed
    }

    /// The seed of the next sample.
    pub fn current_seed(&self) -> (r: u64)
        ensures
            r == self.seed(),
    {
        self.seed
    }

    /// The value from which the next sample follows, moving on to the next seed.
    ///
    /// The seed must be below `u64::MAX`: it would overflow.
    pub fn next_value(&mut self) -> (r: u64)
        requires
            old(self).seed() < u64::MAX,
        ensures
            r == noise_value(old(self).seed()),
            r < 0x8000_0000,
            final(self).seed() == old(self).seed() + 1,
    {
        let seed = self.seed;
        let x = (seed << 13u64) ^ seed;
        let inner = x.wrapping_mul(x).wrapping_mul(15_731).wrapping_add(789_221);
        let v = x.wrapping_mul(inner).wrapping_add(1_376_312_589) & 0x7fff_ffff;
        assert(v < 0x8000_0000) by (bit_vector)
            requires
                v == x.wrapping_mul(inner).wrapping_add(1_376_312_589) & 0x7fff_ffff,
        ;
        self.seed = seed + 1;
        v
    }
}

/// The noise values are those of the integer hash that starts from `(seed << 13) ^ seed`: the
/// first seeds give these values, which scatter over the whole 31-bit range rather than drift.
pub proof fn law_noise_values_at_the_first_seeds()
    ensures
        noise_value(0) == 1_376_312_589,
        noise_value(1) == 1_316_808_037,
        noise_value(2) == 758_455_919,
        noise_value(3) == 1_349_892_317,
        noise_value(4) == 444_786_017,
        noise_value(1000) == 47_131_029,
{
    assert((((0u64) << 13u64) ^ 0u64) == 0u64) by (bit_vector);
    assert(1376312589u64 & 0x7fff_ffff == 1376312589u64) by (bit_vector);
    assert(noise_value(0) == 1376312589);
    assert((((1u64) << 13u64) ^ 1u64) == 8193u64) by (bit_vector);
    assert(8651384005911909u64 & 0x7fff_ffff == 1316808037u64) by (bit_vector);
    assert(noise_value(1) == 1316808037);
    assert((((2u64) << 13u64) ^ 2u64) == 16386u64) by (bit_vector);
    assert(69211023616581231u64 & 0x7fff_ffff == 758455919u64) by (bit_vector);
    assert(noise_value(2) == 758455919);
    assert((((3u64) << 13u64) ^ 3u64) == 24579u64) by (bit_vector);
    assert(233587177189390557u64 & 0x7fff_ffff == 1349892317u64) by (bit_vector);
    assert(noise_value(3) == 1349892317);
    assert((((4u64) << 13u64) ^ 4u64) == 32772u64) by (bit_vector);
    assert(553688101705409889u64 & 0x7fff_ffff == 444786017u64) by (bit_vector);
    assert(noise_value(4) == 444786017);
    assert((((1000u64) << 13u64) ^ 1000u64) == 8193000u64) by (bit_vector);
    assert(766900944432474517u64 & 0x7fff_ffff == 47131029u64) by (bit_vector);
    assert(noise_value(1000) == 47131029);
}

} // verus!

//! Peak envelope detection over a signal: half and full wave rectifiers.

use vstd::prelude::*;
use crate::frame::{frame_valid, Frame};
use crate::sample::{half_range, rescale, Pcm, Sample, SignedSample};

verus! {

/// The amplitude of `s` measured in its `Signed` format.
pub open spec fn signed_amp_of<S: Sample>(s: S) -> int {
    rescale(s.amp(), S::depth(), <S::Signed as Pcm>::depth())
}

/// Whether the full wave rectifier can take the absolute value of every channel: the negative
/// rail of the `Signed` format has no positive counterpart.
pub open spec fn full_wave_accepts<S: Sample, const N: usize>(frame: [S; N]) -> bool {
    &&& forall|i: int| 0 <= i < N ==> (#[trigger] frame@[i]).valid()
    &&& forall|i: int|
        0 <= i < N ==> signed_amp_of(#[trigger] frame@[i]) > -half_range(
            <S::Signed as Pcm>::depth(),
        )
}

/// Whether `out` is the full wave rectification of `frame`: each channel's absolute amplitude in
/// the `Signed` format.
pub open spec fn is_full_wave<S: Sample, const N: usize>(frame: [S; N], out: [S::Signed; N]) -> bool {
    forall|i: int|
        0 <= i < N ==> {
            &&& (#[trigger] out@[i]).valid()
            &&& out@[i].amp() == if signed_amp_of(frame@[i]) < 0 {
                -signed_amp_of(frame@[i])
            } else {
                signed_amp_of(frame@[i])
            }
        }
}

/// Whether `out` keeps the non-negative channels of `frame` and sets the others to equilibrium.
pub open spec fn is_positive_half_wave<F: Frame>(frame: F, out: F) -> bool {
    &&& out.samples().len() == frame.samples().len()
    &&& forall|i: int|
        0 <= i < frame.samples().len() ==> {
            &&& (#[trigger] out.samples()[i]).valid()
            &&& if frame.samples()[i].amp() < 0 {
                out.samples()[i].amp() == 0
            } else {
                out.samples()[i] == frame.samples()[i]
            }
        }
}

/// Whether `out` keeps the non-positive channels of `frame` and sets the others to equilibrium.
pub open spec fn is_negative_half_wave<F: Frame>(frame: F, out: F) -> bool {
    &&& out.samples().len() == frame.samples().len()
    &&& forall|i: int|
        0 <= i < frame.samples().len() ==> {
            &&& (#[trigger] out.samples()[i]).valid()
            &&& if frame.samples()[i].amp() > 0 {
                out.samples()[i].amp() == 0
            } else {
                out.samples()[i] == frame.samples()[i]
            }
        }
}

/// Types that may be used to rectify a signal of frames `F` for a `Peak` detector.
pub trait Rectifier<F: Frame> {
    /// Frames that can be detected.
    type Output: Copy;

    /// Whether the rectifier can rectify `frame`.
    spec fn accepts(frame: F) -> bool;

    /// Whether `out` is the rectification of `frame`.
    spec fn rectifies(frame: F, out: Self::Output) -> bool;

    /// Rectify the given frame.
    fn rectify(&mut self, frame: F) -> (r: Self::Output)
        requires
            Self::accepts(frame),
        ensures
            Self::rectifies(frame, r),
    ;
}

/// A signal rectifier that produces the absolute amplitude from samples.
#[derive(Copy, Clone, Debug, Default, PartialEq, Eq)]
pub struct FullWave;

/// A signal rectifier that produces only the positive samples.
#[derive(Copy, Clone, Debug, Default, PartialEq, Eq)]
pub struct PositiveHalfWave;

/// A signal rectifier that produces only the negative samples.
#[derive(Copy, Clone, Debug, Default, PartialEq, Eq)]
pub struct NegativeHalfWave;

impl<S: Sample, const N: usize> Rectifier<[S; N]> for FullWave {
    type Output = [S::Signed; N];

    open spec fn accepts(frame: [S; N]) -> bool {
        full_wave_accepts(frame)
    }

    open spec fn rectifies(frame: [S; N], out: [S::Signed; N]) -> bool {
        is_full_wave(frame, out)
    }

    fn rectify(&mut self, frame: [S; N]) -> (r: [S::Signed; N]) {
        full_wave(frame)
    }
}

impl<F: Frame> Rectifier<F> for PositiveHalfWave {
    type Output = F;

    open spec fn accepts(frame: F) -> bool {
        frame_valid(frame)
    }

    open spec fn rectifies(frame: F, out: F) -> bool {
        is_positive_half_wave(frame, out)
    }

    fn rectify(&mut self, frame: F) -> (r: F) {
        positive_half_wave(frame)
    }
}

impl<F: Frame> Rectifier<F> for NegativeHalfWave {
    type Output = F;

    open spec fn accepts(frame: F) -> bool {
        frame_valid(frame)
    }

    open spec fn rectifies(frame: F, out: F) -> bool {
        is_negative_half_wave(frame, out)
    }

    fn rectify(&mut self, frame: F) -> (r: F) {
        negative_half_wave(frame)
    }
}

/// A signal rectifier that produces the absolute amplitude from samples.
pub fn full_wave<S: Sample, const N: usize>(frame: [S; N]) -> (r: [S::Signed; N])
    requires
        full_wave_accepts(frame),
    ensures
        is_full_wave(frame, r),
{
    let mut out = [<S::Signed as SignedSample>::zero(); N];
    let mut i: usize = 0;
    while i < N
        invariant
            i <= N,
            full_wave_accepts(frame),
            forall|j: int|
                0 <= j < i ==> {
                    &&& (#[trigger] out@[j]).valid()
                    &&& out@[j].amp() == if signed_amp_of(frame@[j]) < 0 {
                        -signed_amp_of(frame@[j])
                    } else {
                        signed_amp_of(frame@[j])
                    }
                },
        decreases N - i,
    {
        let signed = frame[i].to_signed_sample();
        if signed.is_negative() {
            out[i] = signed.negate();
        } else {
            out[i] = signed;
        }
        i = i + 1;
    }
    out
}

/// A signal rectifier that produces only the positive samples.
pub fn positive_half_wave<F: Frame>(frame: F) -> (r: F)
    requires
        frame_valid(frame),
    ensures
        is_positive_half_wave(frame, r),
{
    proof {
        frame.lemma_len();
    }
    let n = F::num_channels();
    let mut out = frame;
    let mut i: usize = 0;
    while i < n
        invariant
            i <= n,
            n == F::channel_count(),
            frame_valid(frame),
            frame.samples().len() == n,
            out.samples().len() == n,
            forall|j: int|
                0 <= j < i ==> {
                    &&& (#[trigger] out.samples()[j]).valid()
                    &&& if frame.samples()[j].amp() < 0 {
                        out.samples()[j].amp() == 0
                    } else {
                        out.samples()[j] == frame.samples()[j]
                    }
                },
            forall|j: int| i <= j < n ==> #[trigger] out.samples()[j] == frame.samples()[j],
        decreases n - i,
    {
        let s = *frame.channel(i).unwrap();
        proof {
            crate::sample::lemma_rescale_sign(
                s.amp(),
                <F::Sample as Pcm>::depth(),
                <<F::Sample as Sample>::Signed as Pcm>::depth(),
            );
        }
        if s.to_signed_sample().is_negative() {
            out.set_channel(i, <F::Sample as Sample>::equilibrium());
        }
        proof {
            out.lemma_len();
        }
        i = i + 1;
    }
    out
}

/// A signal rectifier that produces only the negative samples.
pub fn negative_half_wave<F: Frame>(frame: F) -> (r: F)
    requires
        frame_valid(frame),
    ensures
        is_negative_half_wave(frame, r),
{
    proof {
        frame.lemma_len();
    }
    let n = F::num_channels();
    let mut out = frame;
    let mut i: usize = 0;
    while i < n
        invariant
            i <= n,
            n == F::channel_count(),
            frame_valid(frame),
            frame.samples().len() == n,
            out.samples().len() == n,
            forall|j: int|
                0 <= j < i ==> {
                    &&& (#[trigger] out.samples()[j]).valid()
                    &&& if frame.samples()[j].amp() > 0 {
                        out.samples()[j].amp() == 0
                    } else {
                        out.samples()[j] == frame.samples()[j]
                    }
                },
            forall|j: int| i <= j < n ==> #[trigger] out.samples()[j] == frame.samples()[j],
        decreases n - i,
    {
        let s = *frame.channel(i).unwrap();
        let signed = s.to_signed_sample();
        proof {
            <F::Sample as Sample>::lemma_signed_depth();
            crate::sample::lemma_rescale_sign(
                s.amp(),
                <F::Sample as Pcm>::depth(),
                <<F::Sample as Sample>::Signed as Pcm>::depth(),
            );
        }
        if signed.is_positive() {
            out.set_channel(i, <F::Sample as Sample>::equilibrium());
        }
        proof {
            out.lemma_len();
        }
        i = i + 1;
    }
    out
}

/// Rectifying a frame to its positive half wave and then to its negative half wave leaves
/// every channel at equilibrium.
pub proof fn law_half_waves_cancel<F: Frame>(frame: F, positive: F, both: F)
    requires
        is_positive_half_wave(frame, positive),
        is_negative_half_wave(positive, both),
    ensures
        forall|i: int| 0 <= i < frame.samples().len() ==> {
            &&& (#[trigger] both.samples()[i]).valid()
            &&& both.samples()[i].amp() == 0
        },
{
}

} // verus!

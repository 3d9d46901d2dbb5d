//! Use the **Sample** trait to convert between and remain generic over any bit-depth.
//!
//! Every sample type is modelled by two numbers: its bit depth, and its amplitude, the signed
//! distance of a value from the type's equilibrium. A conversion between two types re-expresses
//! the amplitude at the new depth: widening multiplies it by a power of two, narrowing divides
//! it, rounding towards negative infinity.

pub mod conv;
mod impls;
pub mod types;

pub use self::types::{I24, I24BE3, I24LE3, I48, U24, U24BE3, U24LE3, U48};

use vstd::prelude::*;

verus! {

/// `2^k`, written out for the bit-depth differences that occur between sample types.
pub open spec fn bit_scale(k: nat) -> int {
    if k == 0 {
        1
    } else if k == 8 {
        0x100
    } else if k == 16 {
        0x1_0000
    } else if k == 24 {
        0x100_0000
    } else if k == 32 {
        0x1_0000_0000
    } else if k == 40 {
        0x100_0000_0000
    } else if k == 48 {
        0x1_0000_0000_0000
    } else if k == 56 {
        0x100_0000_0000_0000
    } else {
        vstd::arithmetic::power2::pow2(k) as int
    }
}

/// Half the number of values of a `depth`-bit sample: the distance from equilibrium to either
/// rail.
pub open spec fn half_range(depth: nat) -> int {
    if depth == 8 {
        0x80
    } else if depth == 16 {
        0x8000
    } else if depth == 24 {
        0x80_0000
    } else if depth == 32 {
        0x8000_0000
    } else if depth == 48 {
        0x8000_0000_0000
    } else if depth == 64 {
        0x8000_0000_0000_0000
    } else {
        vstd::arithmetic::power2::pow2((depth - 1) as nat) as int
    }
}

/// Whether `amp` is an amplitude that a `depth`-bit sample can take.
pub open spec fn amp_in_range(amp: int, depth: nat) -> bool {
    -half_range(depth) <= amp < half_range(depth)
}

/// Re-expresses the amplitude `v` of a `from`-bit sample at a depth of `to` bits: widening
/// multiplies by `2^(to - from)`, narrowing divides by `2^(from - to)` rounding down.
pub open spec fn rescale(v: int, from: nat, to: nat) -> int {
    if from <= to {
        v * bit_scale((to - from) as nat)
    } else {
        v / bit_scale((from - to) as nat)
    }
}

/// Every scale factor is positive.
pub proof fn lemma_bit_scale_pos(k: nat)
    ensures
        bit_scale(k) > 0,
{
    vstd::arithmetic::power2::lemma_pow2_pos(k);
}

/// Rescaling keeps the sign of an amplitude; narrowing may only take a positive amplitude to
/// zero.
pub proof fn lemma_rescale_sign(v: int, from: nat, to: nat)
    ensures
        (rescale(v, from, to) < 0) == (v < 0),
        from <= to ==> (rescale(v, from, to) > 0) == (v > 0),
        v == 0 ==> rescale(v, from, to) == 0,
{
    if from <= to {
        let b = bit_scale((to - from) as nat);
        lemma_bit_scale_pos((to - from) as nat);
        assert((v * b < 0) == (v < 0) && (v * b > 0) == (v > 0) && (v == 0 ==> v * b == 0))
            by (nonlinear_arith)
            requires
                b > 0,
        ;
    } else {
        let b = bit_scale((from - to) as nat);
        lemma_bit_scale_pos((from - to) as nat);
        assert((v / b < 0) == (v < 0) && (v == 0 ==> v / b == 0)) by (nonlinear_arith)
            requires
                b > 0,
        ;
    }
}

/// Widening an amplitude and narrowing it back gives the amplitude back.
pub proof fn lemma_widen_narrow(v: int, narrow: nat, wide: nat)
    requires
        narrow <= wide,
    ensures
        rescale(rescale(v, narrow, wide), wide, narrow) == v,
{
    let s = bit_scale((wide - narrow) as nat);
    lemma_bit_scale_pos((wide - narrow) as nat);
    if narrow < wide {
        assert(v * s == s * v) by (nonlinear_arith);
        vstd::arithmetic::div_mod::lemma_div_multiples_vanish(v, s);
    }
}

/// Converting a sample to a type of at least its bit depth and back gives the sample back: no
/// information is lost on the way.
pub proof fn law_widen_then_narrow<A: Pcm, B: Pcm>(sample: A, wide: B, back: A)
    requires
        sample.valid(),
        A::depth() <= B::depth(),
        wide.amp() == rescale(sample.amp(), A::depth(), B::depth()),
        back.valid(),
        back.amp() == rescale(wide.amp(), B::depth(), A::depth()),
    ensures
        back == sample,
{
    lemma_widen_narrow(sample.amp(), A::depth(), B::depth());
    back.lemma_amp_injective(sample);
}

/// Every conversion takes equilibrium to equilibrium, and keeps a value below equilibrium
/// below it.
pub proof fn law_conversion_keeps_sign<A: Pcm, B: Pcm>(sample: A, converted: B)
    requires
        converted.amp() == rescale(sample.amp(), A::depth(), B::depth()),
    ensures
        sample.amp() == 0 ==> converted.amp() == 0,
        sample.amp() < 0 <==> converted.amp() < 0,
{
    lemma_rescale_sign(sample.amp(), A::depth(), B::depth());
}

/// The mathematical model of a PCM sample value: its bit depth, its amplitude measured from
/// equilibrium, and whether it lies in the type's range.
pub trait Pcm: Copy + Sized {
    /// The number of bits of resolution of the type.
    spec fn depth() -> nat;

    /// The signed distance of the value from the type's equilibrium.
    spec fn amp(self) -> int;

    /// Whether the value lies within the type's range.
    spec fn valid(self) -> bool;

    /// A valid value has an amplitude that fits its depth.
    proof fn lemma_valid(self)
        requires
            self.valid(),
        ensures
            amp_in_range(self.amp(), Self::depth()),
    ;

    /// The amplitude identifies a value.
    proof fn lemma_amp_injective(self, other: Self)
        requires
            self.amp() == other.amp(),
        ensures
            self == other,
    ;
}

/// A trait for working generically across different **Sample** format types.
///
/// Provides methods for converting to and from any type that implements the
/// [`FromSample`](./trait.FromSample.html) trait and for offsetting a sample's amplitude.
pub trait Sample: Pcm {
    /// The signed format that `Self` is converted to when summing two samples of a signal.
    type Signed: SignedSample;

    /// The `Signed` format has at least the resolution of `Self`.
    proof fn lemma_signed_depth()
        ensures
            Self::depth() <= <Self::Signed as Pcm>::depth(),
    ;

    /// The equilibrium value for the wave that this `Sample` type represents: the value that is
    /// equal distance from both the min and max ranges of the sample.
    fn equilibrium() -> (r: Self)
        ensures
            r.valid(),
            r.amp() == 0,
    ;

    /// Converts `self` to its `Signed` format.
    fn to_signed_sample(self) -> (r: Self::Signed)
        requires
            self.valid(),
        ensures
            r.valid(),
            r.amp() == rescale(self.amp(), Self::depth(), <Self::Signed as Pcm>::depth()),
    ;

    /// Adds (or "offsets") the amplitude of the `Sample` by the given signed amplitude.
    ///
    /// `Self` is converted to `Self::Signed`, the addition occurs there, and the sum is converted
    /// back to `Self`. The sum must fit the `Signed` format.
    fn add_amp(self, amp: Self::Signed) -> (r: Self)
        requires
            self.valid(),
            amp.valid(),
            amp_in_range(
                rescale(self.amp(), Self::depth(), <Self::Signed as Pcm>::depth()) + amp.amp(),
                <Self::Signed as Pcm>::depth(),
            ),
        ensures
            r.valid(),
            r.amp() == rescale(
                rescale(self.amp(), Self::depth(), <Self::Signed as Pcm>::depth()) + amp.amp(),
                <Self::Signed as Pcm>::depth(),
                Self::depth(),
            ),
    ;

    /// Convert `self` to any type that implements `FromSample<Self>`.
    fn to_sample<S: Pcm>(self) -> (r: S)
        where
            Self: ToSample<S>,
        requires
            self.valid(),
        ensures
            r.valid(),
            r.amp() == rescale(self.amp(), Self::depth(), S::depth()),
    {
        self.to_sample_()
    }

    /// Create a `Self` from any type that implements `ToSample<Self>`.
    fn from_sample<S: Pcm>(s: S) -> (r: Self)
        where
            Self: FromSample<S>,
        requires
            s.valid(),
        ensures
            r.valid(),
            r.amp() == rescale(s.amp(), S::depth(), Self::depth()),
    {
        Self::from_sample_(s)
    }
}

/// Integral sample format types whose equilibrium is at 0.
///
/// **Sample**s are converted to some mutual **SignedSample** type for signal addition.
pub trait SignedSample: Pcm {
    /// Zero: the equilibrium of every signed format.
    fn zero() -> (r: Self)
        ensures
            r.valid(),
            r.amp() == 0,
    ;

    /// Whether the value lies below `other`.
    fn is_below(self, other: Self) -> (r: bool)
        ensures
            r == (self.amp() < other.amp()),
    ;

    /// Whether the value lies below equilibrium.
    fn is_negative(self) -> (r: bool)
        ensures
            r == (self.amp() < 0),
    ;

    /// Whether the value lies above equilibrium.
    fn is_positive(self) -> (r: bool)
        ensures
            r == (self.amp() > 0),
    ;

    /// The value with its sign flipped. The negative rail has no positive counterpart and is
    /// left out.
    fn negate(self) -> (r: Self)
        requires
            self.valid(),
            self.amp() > -half_range(Self::depth()),
        ensures
            r.valid(),
            r.amp() == -self.amp(),
    ;
}

/// Similar to the std `From` trait, but specifically for converting between sample types.
pub trait FromSample<S: Pcm>: Pcm {
    fn from_sample_(s: S) -> (r: Self)
        requires
            s.valid(),
        ensures
            r.valid(),
            r.amp() == rescale(s.amp(), S::depth(), Self::depth()),
    ;
}

/// Similar to the std `Into` trait, but specifically for converting between sample types.
///
/// This trait has a blanket implementation for all types that implement `FromSample`.
pub trait ToSample<S: Pcm>: Pcm {
    fn to_sample_(self) -> (r: S)
        requires
            self.valid(),
        ensures
            r.valid(),
            r.amp() == rescale(self.amp(), Self::depth(), S::depth()),
    ;
}

impl<S: Pcm> FromSample<S> for S {
    fn from_sample_(s: S) -> (r: Self) {
        s
    }
}

impl<T: Pcm, U: FromSample<T>> ToSample<U> for T {
    fn to_sample_(self) -> (r: U) {
        U::from_sample_(self)
    }
}

/// Sample types which may be converted to and from some type `S`.
pub trait Duplex<S: Pcm>: FromSample<S> + ToSample<S> {

}

impl<S: Pcm, T: FromSample<S> + ToSample<S>> Duplex<S> for T {

}

} // verus!

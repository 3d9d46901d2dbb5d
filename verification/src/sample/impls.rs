//! The `Sample` implementations of the integer sample types.

use vstd::prelude::*;
use super::types::{self, I24, I24BE3, I24LE3, I48, U24, U24BE3, U24LE3, U48};
use super::{amp_in_range, FromSample, Pcm, Sample, SignedSample, ToSample};

verus! {

impl Pcm for i8 {
    open spec fn depth() -> nat {
        8
    }

    open spec fn amp(self) -> int {
        self as int
    }

    open spec fn valid(self) -> bool {
        true
    }

    proof fn lemma_valid(self) {
    }

    proof fn lemma_amp_injective(self, other: Self) {
    }
}

impl Pcm for i16 {
    open spec fn depth() -> nat {
        16
    }

    open spec fn amp(self) -> int {
        self as int
    }

    open spec fn valid(self) -> bool {
        true
    }

    proof fn lemma_valid(self) {
    }

    proof fn lemma_amp_injective(self, other: Self) {
    }
}

impl Pcm for I24 {
    open spec fn depth() -> nat {
        24
    }

    open spec fn amp(self) -> int {
        self@ as int
    }

    open spec fn valid(self) -> bool {
        self.is_valid()
    }

    proof fn lemma_valid(self) {
    }

    proof fn lemma_amp_injective(self, other: Self) {
        self.lemma_view_injective(other);
    }
}

impl Pcm for i32 {
    open spec fn depth() -> nat {
        32
    }

    open spec fn amp(self) -> int {
        self as int
    }

    open spec fn valid(self) -> bool {
        true
    }

    proof fn lemma_valid(self) {
    }

    proof fn lemma_amp_injective(self, other: Self) {
    }
}

impl Pcm for I48 {
    open spec fn depth() -> nat {
        48
    }

    open spec fn amp(self) -> int {
        self@ as int
    }

    open spec fn valid(self) -> bool {
        self.is_valid()
    }

    proof fn lemma_valid(self) {
    }

    proof fn lemma_amp_injective(self, other: Self) {
        self.lemma_view_injective(other);
    }
}

impl Pcm for i64 {
    open spec fn depth() -> nat {
        64
    }

    open spec fn amp(self) -> int {
        self as int
    }

    open spec fn valid(self) -> bool {
        true
    }

    proof fn lemma_valid(self) {
    }

    proof fn lemma_amp_injective(self, other: Self) {
    }
}

impl Pcm for u8 {
    open spec fn depth() -> nat {
        8
    }

    open spec fn amp(self) -> int {
        self - 128
    }

    open spec fn valid(self) -> bool {
        true
    }

    proof fn lemma_valid(self) {
    }

    proof fn lemma_amp_injective(self, other: Self) {
    }
}

impl Pcm for u16 {
    open spec fn depth() -> nat {
        16
    }

    open spec fn amp(self) -> int {
        self - 32_768
    }

    open spec fn valid(self) -> bool {
        true
    }

    proof fn lemma_valid(self) {
    }

    proof fn lemma_amp_injective(self, other: Self) {
    }
}

impl Pcm for U24 {
    open spec fn depth() -> nat {
        24
    }

    open spec fn amp(self) -> int {
        self@ - 8_388_608
    }

    open spec fn valid(self) -> bool {
        self.is_valid()
    }

    proof fn lemma_valid(self) {
    }

    proof fn lemma_amp_injective(self, other: Self) {
        self.lemma_view_injective(other);
    }
}

impl Pcm for u32 {
    open spec fn depth() -> nat {
        32
    }

    open spec fn amp(self) -> int {
        self - 2_147_483_648
    }

    open spec fn valid(self) -> bool {
        true
    }

    proof fn lemma_valid(self) {
    }

    proof fn lemma_amp_injective(self, other: Self) {
    }
}

impl Pcm for U48 {
    open spec fn depth() -> nat {
        48
    }

    open spec fn amp(self) -> int {
        self@ - 140_737_488_355_328
    }

    open spec fn valid(self) -> bool {
        self.is_valid()
    }

    proof fn lemma_valid(self) {
    }

    proof fn lemma_amp_injective(self, other: Self) {
        self.lemma_view_injective(other);
    }
}

impl Pcm for u64 {
    open spec fn depth() -> nat {
        64
    }

    open spec fn amp(self) -> int {
        self - 9_223_372_036_854_775_808
    }

    open spec fn valid(self) -> bool {
        true
    }

    proof fn lemma_valid(self) {
    }

    proof fn lemma_amp_injective(self, other: Self) {
    }
}

impl Pcm for I24LE3 {
    open spec fn depth() -> nat {
        24
    }

    open spec fn amp(self) -> int {
        self@
    }

    open spec fn valid(self) -> bool {
        true
    }

    proof fn lemma_valid(self) {
        self.lemma_range();
    }

    proof fn lemma_amp_injective(self, other: Self) {
        self.lemma_view_injective(other);
    }
}

impl Pcm for I24BE3 {
    open spec fn depth() -> nat {
        24
    }

    open spec fn amp(self) -> int {
        self@
    }

    open spec fn valid(self) -> bool {
        true
    }

    proof fn lemma_valid(self) {
        self.lemma_range();
    }

    proof fn lemma_amp_injective(self, other: Self) {
        self.lemma_view_injective(other);
    }
}

impl Pcm for U24LE3 {
    open spec fn depth() -> nat {
        24
    }

    open spec fn amp(self) -> int {
        self@ - 8_388_608
    }

    open spec fn valid(self) -> bool {
        true
    }

    proof fn lemma_valid(self) {
        self.lemma_range();
    }

    proof fn lemma_amp_injective(self, other: Self) {
        self.lemma_view_injective(other);
    }
}

impl Pcm for U24BE3 {
    open spec fn depth() -> nat {
        24
    }

    open spec fn amp(self) -> int {
        self@ - 8_388_608
    }

    open spec fn valid(self) -> bool {
        true
    }

    proof fn lemma_valid(self) {
        self.lemma_range();
    }

    proof fn lemma_amp_injective(self, other: Self) {
        self.lemma_view_injective(other);
    }
}

impl Sample for i8 {
    type Signed = i8;

    proof fn lemma_signed_depth() {
    }

    fn equilibrium() -> (r: Self) {
        0
    }

    fn to_signed_sample(self) -> (r: i8) {
        self
    }

    fn add_amp(self, amp: i8) -> (r: Self) {
        let self_s: i8 = self.to_signed_sample();
        (self_s + amp).to_sample_()
    }
}

impl Sample for i16 {
    type Signed = i16;

    proof fn lemma_signed_depth() {
    }

    fn equilibrium() -> (r: Self) {
        0
    }

    fn to_signed_sample(self) -> (r: i16) {
        self
    }

    fn add_amp(self, amp: i16) -> (r: Self) {
        let self_s: i16 = self.to_signed_sample();
        (self_s + amp).to_sample_()
    }
}

impl Sample for I24 {
    type Signed = I24;

    proof fn lemma_signed_depth() {
    }

    fn equilibrium() -> (r: Self) {
        types::i24::equilibrium()
    }

    fn to_signed_sample(self) -> (r: I24) {
        self
    }

    fn add_amp(self, amp: I24) -> (r: Self) {
        let self_s: I24 = self.to_signed_sample();
        (self_s + amp).to_sample_()
    }
}

impl Sample for i32 {
    type Signed = i32;

    proof fn lemma_signed_depth() {
    }

    fn equilibrium() -> (r: Self) {
        0
    }

    fn to_signed_sample(self) -> (r: i32) {
        self
    }

    fn add_amp(self, amp: i32) -> (r: Self) {
        let self_s: i32 = self.to_signed_sample();
        (self_s + amp).to_sample_()
    }
}

impl Sample for I48 {
    type Signed = I48;

    proof fn lemma_signed_depth() {
    }

    fn equilibrium() -> (r: Self) {
        types::i48::equilibrium()
    }

    fn to_signed_sample(self) -> (r: I48) {
        self
    }

    fn add_amp(self, amp: I48) -> (r: Self) {
        let self_s: I48 = self.to_signed_sample();
        (self_s + amp).to_sample_()
    }
}

impl Sample for i64 {
    type Signed = i64;

    proof fn lemma_signed_depth() {
    }

    fn equilibrium() -> (r: Self) {
        0
    }

    fn to_signed_sample(self) -> (r: i64) {
        self
    }

    fn add_amp(self, amp: i64) -> (r: Self) {
        let self_s: i64 = self.to_signed_sample();
        (self_s + amp).to_sample_()
    }
}

impl Sample for u8 {
    type Signed = i8;

    proof fn lemma_signed_depth() {
    }

    fn equilibrium() -> (r: Self) {
        128
    }

    fn to_signed_sample(self) -> (r: i8) {
        self.to_sample_()
    }

    fn add_amp(self, amp: i8) -> (r: Self) {
        let self_s: i8 = self.to_signed_sample();
        (self_s + amp).to_sample_()
    }
}

impl Sample for u16 {
    type Signed = i16;

    proof fn lemma_signed_depth() {
    }

    fn equilibrium() -> (r: Self) {
        32_768
    }

    fn to_signed_sample(self) -> (r: i16) {
        self.to_sample_()
    }

    fn add_amp(self, amp: i16) -> (r: Self) {
        let self_s: i16 = self.to_signed_sample();
        (self_s + amp).to_sample_()
    }
}

impl Sample for U24 {
    type Signed = i32;

    proof fn lemma_signed_depth() {
    }

    fn equilibrium() -> (r: Self) {
        types::u24::equilibrium()
    }

    fn to_signed_sample(self) -> (r: i32) {
        self.to_sample_()
    }

    fn add_amp(self, amp: i32) -> (r: Self) {
        let self_s: i32 = self.to_signed_sample();
        (self_s + amp).to_sample_()
    }
}

impl Sample for u32 {
    type Signed = i32;

    proof fn lemma_signed_depth() {
    }

    fn equilibrium() -> (r: Self) {
        2_147_483_648
    }

    fn to_signed_sample(self) -> (r: i32) {
        self.to_sample_()
    }

    fn add_amp(self, amp: i32) -> (r: Self) {
        let self_s: i32 = self.to_signed_sample();
        (self_s + amp).to_sample_()
    }
}

impl Sample for U48 {
    type Signed = i64;

    proof fn lemma_signed_depth() {
    }

    fn equilibrium() -> (r: Self) {
        types::u48::equilibrium()
    }

    fn to_signed_sample(self) -> (r: i64) {
        self.to_sample_()
    }

    fn add_amp(self, amp: i64) -> (r: Self) {
        let self_s: i64 = self.to_signed_sample();
        (self_s + amp).to_sample_()
    }
}

impl Sample for u64 {
    type Signed = i64;

    proof fn lemma_signed_depth() {
    }

    fn equilibrium() -> (r: Self) {
        9_223_372_036_854_775_808
    }

    fn to_signed_sample(self) -> (r: i64) {
        self.to_sample_()
    }

    fn add_amp(self, amp: i64) -> (r: Self) {
        let self_s: i64 = self.to_signed_sample();
        (self_s + amp).to_sample_()
    }
}

impl Sample for I24LE3 {
    type Signed = I24LE3;

    proof fn lemma_signed_depth() {
    }

    fn equilibrium() -> (r: Self) {
        types::i24_le3::equilibrium()
    }

    fn to_signed_sample(self) -> (r: I24LE3) {
        self
    }

    fn add_amp(self, amp: I24LE3) -> (r: Self) {
        let self_s: I24LE3 = self.to_signed_sample();
        proof {
            types::i24_le3::lemma_wrap_in_range(self_s@ + amp@);
        }
        (self_s + amp).to_sample_()
    }
}

impl Sample for I24BE3 {
    type Signed = I24BE3;

    proof fn lemma_signed_depth() {
    }

    fn equilibrium() -> (r: Self) {
        types::i24_be3::equilibrium()
    }

    fn to_signed_sample(self) -> (r: I24BE3) {
        self
    }

    fn add_amp(self, amp: I24BE3) -> (r: Self) {
        let self_s: I24BE3 = self.to_signed_sample();
        proof {
            types::i24_be3::lemma_wrap_in_range(self_s@ + amp@);
        }
        (self_s + amp).to_sample_()
    }
}

impl Sample for U24LE3 {
    type Signed = i32;

    proof fn lemma_signed_depth() {
    }

    fn equilibrium() -> (r: Self) {
        types::u24_le3::equilibrium()
    }

    fn to_signed_sample(self) -> (r: i32) {
        self.to_sample_()
    }

    fn add_amp(self, amp: i32) -> (r: Self) {
        let self_s: i32 = self.to_signed_sample();
        (self_s + amp).to_sample_()
    }
}

impl Sample for U24BE3 {
    type Signed = i32;

    proof fn lemma_signed_depth() {
    }

    fn equilibrium() -> (r: Self) {
        types::u24_be3::equilibrium()
    }

    fn to_signed_sample(self) -> (r: i32) {
        self.to_sample_()
    }

    fn add_amp(self, amp: i32) -> (r: Self) {
        let self_s: i32 = self.to_signed_sample();
        (self_s + amp).to_sample_()
    }
}

impl SignedSample for i8 {
    fn zero() -> (r: Self) {
        0
    }

    fn is_negative(self) -> (r: bool) {
        self < 0
    }

    fn is_below(self, other: Self) -> (r: bool) {
        self < other
    }

    fn is_positive(self) -> (r: bool) {
        self > 0
    }

    fn negate(self) -> (r: Self) {
        -self
    }
}

impl SignedSample for i16 {
    fn zero() -> (r: Self) {
        0
    }

    fn is_negative(self) -> (r: bool) {
        self < 0
    }

    fn is_below(self, other: Self) -> (r: bool) {
        self < other
    }

    fn is_positive(self) -> (r: bool) {
        self > 0
    }

    fn negate(self) -> (r: Self) {
        -self
    }
}

impl SignedSample for I24 {
    fn zero() -> (r: Self) {
        types::i24::equilibrium()
    }

    fn is_negative(self) -> (r: bool) {
        self.inner() < 0
    }

    fn is_below(self, other: Self) -> (r: bool) {
        self.inner() < other.inner()
    }

    fn is_positive(self) -> (r: bool) {
        self.inner() > 0
    }

    fn negate(self) -> (r: Self) {
        core::ops::Neg::neg(self)
    }
}

impl SignedSample for i32 {
    fn zero() -> (r: Self) {
        0
    }

    fn is_negative(self) -> (r: bool) {
        self < 0
    }

    fn is_below(self, other: Self) -> (r: bool) {
        self < other
    }

    fn is_positive(self) -> (r: bool) {
        self > 0
    }

    fn negate(self) -> (r: Self) {
        -self
    }
}

impl SignedSample for I48 {
    fn zero() -> (r: Self) {
        types::i48::equilibrium()
    }

    fn is_negative(self) -> (r: bool) {
        self.inner() < 0
    }

    fn is_below(self, other: Self) -> (r: bool) {
        self.inner() < other.inner()
    }

    fn is_positive(self) -> (r: bool) {
        self.inner() > 0
    }

    fn negate(self) -> (r: Self) {
        core::ops::Neg::neg(self)
    }
}

impl SignedSample for i64 {
    fn zero() -> (r: Self) {
        0
    }

    fn is_negative(self) -> (r: bool) {
        self < 0
    }

    fn is_below(self, other: Self) -> (r: bool) {
        self < other
    }

    fn is_positive(self) -> (r: bool) {
        self > 0
    }

    fn negate(self) -> (r: Self) {
        -self
    }
}

impl SignedSample for I24LE3 {
    fn zero() -> (r: Self) {
        types::i24_le3::equilibrium()
    }

    fn is_negative(self) -> (r: bool) {
        self.inner() < 0
    }

    fn is_below(self, other: Self) -> (r: bool) {
        self.inner() < other.inner()
    }

    fn is_positive(self) -> (r: bool) {
        self.inner() > 0
    }

    fn negate(self) -> (r: Self) {
        proof {
            self.lemma_range();
            types::i24_le3::lemma_wrap_in_range(-self@);
        }
        core::ops::Neg::neg(self)
    }
}

impl SignedSample for I24BE3 {
    fn zero() -> (r: Self) {
        types::i24_be3::equilibrium()
    }

    fn is_negative(self) -> (r: bool) {
        self.inner() < 0
    }

    fn is_below(self, other: Self) -> (r: bool) {
        self.inner() < other.inner()
    }

    fn is_positive(self) -> (r: bool) {
        self.inner() > 0
    }

    fn negate(self) -> (r: Self) {
        proof {
            self.lemma_range();
            types::i24_be3::lemma_wrap_in_range(-self@);
        }
        core::ops::Neg::neg(self)
    }
}

impl FromSample<i8> for I24LE3 {
    fn from_sample_(s: i8) -> (r: Self) {
        let unpacked: I24 = s.to_sample_();
        proof {
            types::i24_le3::lemma_wrap_in_range(unpacked@ as int);
        }
        I24LE3::from(unpacked)
    }
}

impl FromSample<i16> for I24LE3 {
    fn from_sample_(s: i16) -> (r: Self) {
        let unpacked: I24 = s.to_sample_();
        proof {
            types::i24_le3::lemma_wrap_in_range(unpacked@ as int);
        }
        I24LE3::from(unpacked)
    }
}

impl FromSample<I24> for I24LE3 {
    fn from_sample_(s: I24) -> (r: Self) {
        let unpacked: I24 = s.to_sample_();
        proof {
            types::i24_le3::lemma_wrap_in_range(unpacked@ as int);
        }
        I24LE3::from(unpacked)
    }
}

impl FromSample<i32> for I24LE3 {
    fn from_sample_(s: i32) -> (r: Self) {
        let unpacked: I24 = s.to_sample_();
        proof {
            types::i24_le3::lemma_wrap_in_range(unpacked@ as int);
        }
        I24LE3::from(unpacked)
    }
}

impl FromSample<I48> for I24LE3 {
    fn from_sample_(s: I48) -> (r: Self) {
        let unpacked: I24 = s.to_sample_();
        proof {
            types::i24_le3::lemma_wrap_in_range(unpacked@ as int);
        }
        I24LE3::from(unpacked)
    }
}

impl FromSample<i64> for I24LE3 {
    fn from_sample_(s: i64) -> (r: Self) {
        let unpacked: I24 = s.to_sample_();
        proof {
            types::i24_le3::lemma_wrap_in_range(unpacked@ as int);
        }
        I24LE3::from(unpacked)
    }
}

impl FromSample<u8> for I24LE3 {
    fn from_sample_(s: u8) -> (r: Self) {
        let unpacked: I24 = s.to_sample_();
        proof {
            types::i24_le3::lemma_wrap_in_range(unpacked@ as int);
        }
        I24LE3::from(unpacked)
    }
}

impl FromSample<u16> for I24LE3 {
    fn from_sample_(s: u16) -> (r: Self) {
        let unpacked: I24 = s.to_sample_();
        proof {
            types::i24_le3::lemma_wrap_in_range(unpacked@ as int);
        }
        I24LE3::from(unpacked)
    }
}

impl FromSample<U24> for I24LE3 {
    fn from_sample_(s: U24) -> (r: Self) {
        let unpacked: I24 = s.to_sample_();
        proof {
            types::i24_le3::lemma_wrap_in_range(unpacked@ as int);
        }
        I24LE3::from(unpacked)
    }
}

impl FromSample<u32> for I24LE3 {
    fn from_sample_(s: u32) -> (r: Self) {
        let unpacked: I24 = s.to_sample_();
        proof {
            types::i24_le3::lemma_wrap_in_range(unpacked@ as int);
        }
        I24LE3::from(unpacked)
    }
}

impl FromSample<U48> for I24LE3 {
    fn from_sample_(s: U48) -> (r: Self) {
        let unpacked: I24 = s.to_sample_();
        proof {
            types::i24_le3::lemma_wrap_in_range(unpacked@ as int);
        }
        I24LE3::from(unpacked)
    }
}

impl FromSample<u64> for I24LE3 {
    fn from_sample_(s: u64) -> (r: Self) {
        let unpacked: I24 = s.to_sample_();
        proof {
            types::i24_le3::lemma_wrap_in_range(unpacked@ as int);
        }
        I24LE3::from(unpacked)
    }
}

impl FromSample<I24BE3> for I24LE3 {
    fn from_sample_(s: I24BE3) -> (r: Self) {
        let unpacked: I24 = s.to_sample_();
        proof {
            types::i24_le3::lemma_wrap_in_range(unpacked@ as int);
        }
        I24LE3::from(unpacked)
    }
}

impl FromSample<U24LE3> for I24LE3 {
    fn from_sample_(s: U24LE3) -> (r: Self) {
        let unpacked: I24 = s.to_sample_();
        proof {
            types::i24_le3::lemma_wrap_in_range(unpacked@ as int);
        }
        I24LE3::from(unpacked)
    }
}

impl FromSample<U24BE3> for I24LE3 {
    fn from_sample_(s: U24BE3) -> (r: Self) {
        let unpacked: I24 = s.to_sample_();
        proof {
            types::i24_le3::lemma_wrap_in_range(unpacked@ as int);
        }
        I24LE3::from(unpacked)
    }
}

impl FromSample<I24LE3> for i8 {
    fn from_sample_(s: I24LE3) -> (r: Self) {
        proof {
            s.lemma_range();
        }
        I24::from(s).to_sample_()
    }
}

impl FromSample<I24LE3> for i16 {
    fn from_sample_(s: I24LE3) -> (r: Self) {
        proof {
            s.lemma_range();
        }
        I24::from(s).to_sample_()
    }
}

impl FromSample<I24LE3> for I24 {
    fn from_sample_(s: I24LE3) -> (r: Self) {
        proof {
            s.lemma_range();
        }
        I24::from(s).to_sample_()
    }
}

impl FromSample<I24LE3> for i32 {
    fn from_sample_(s: I24LE3) -> (r: Self) {
        proof {
            s.lemma_range();
        }
        I24::from(s).to_sample_()
    }
}

impl FromSample<I24LE3> for I48 {
    fn from_sample_(s: I24LE3) -> (r: Self) {
        proof {
            s.lemma_range();
        }
        I24::from(s).to_sample_()
    }
}

impl FromSample<I24LE3> for i64 {
    fn from_sample_(s: I24LE3) -> (r: Self) {
        proof {
            s.lemma_range();
        }
        I24::from(s).to_sample_()
    }
}

impl FromSample<I24LE3> for u8 {
    fn from_sample_(s: I24LE3) -> (r: Self) {
        proof {
            s.lemma_range();
        }
        I24::from(s).to_sample_()
    }
}

impl FromSample<I24LE3> for u16 {
    fn from_sample_(s: I24LE3) -> (r: Self) {
        proof {
            s.lemma_range();
        }
        I24::from(s).to_sample_()
    }
}

impl FromSample<I24LE3> for U24 {
    fn from_sample_(s: I24LE3) -> (r: Self) {
        proof {
            s.lemma_range();
        }
        I24::from(s).to_sample_()
    }
}

impl FromSample<I24LE3> for u32 {
    fn from_sample_(s: I24LE3) -> (r: Self) {
        proof {
            s.lemma_range();
        }
        I24::from(s).to_sample_()
    }
}

impl FromSample<I24LE3> for U48 {
    fn from_sample_(s: I24LE3) -> (r: Self) {
        proof {
            s.lemma_range();
        }
        I24::from(s).to_sample_()
    }
}

impl FromSample<I24LE3> for u64 {
    fn from_sample_(s: I24LE3) -> (r: Self) {
        proof {
            s.lemma_range();
        }
        I24::from(s).to_sample_()
    }
}

impl FromSample<i8> for I24BE3 {
    fn from_sample_(s: i8) -> (r: Self) {
        let unpacked: I24 = s.to_sample_();
        proof {
            types::i24_be3::lemma_wrap_in_range(unpacked@ as int);
        }
        I24BE3::from(unpacked)
    }
}

impl FromSample<i16> for I24BE3 {
    fn from_sample_(s: i16) -> (r: Self) {
        let unpacked: I24 = s.to_sample_();
        proof {
            types::i24_be3::lemma_wrap_in_range(unpacked@ as int);
        }
        I24BE3::from(unpacked)
    }
}

impl FromSample<I24> for I24BE3 {
    fn from_sample_(s: I24) -> (r: Self) {
        let unpacked: I24 = s.to_sample_();
        proof {
            types::i24_be3::lemma_wrap_in_range(unpacked@ as int);
        }
        I24BE3::from(unpacked)
    }
}

impl FromSample<i32> for I24BE3 {
    fn from_sample_(s: i32) -> (r: Self) {
        let unpacked: I24 = s.to_sample_();
        proof {
            types::i24_be3::lemma_wrap_in_range(unpacked@ as int);
        }
        I24BE3::from(unpacked)
    }
}

impl FromSample<I48> for I24BE3 {
    fn from_sample_(s: I48) -> (r: Self) {
        let unpacked: I24 = s.to_sample_();
        proof {
            types::i24_be3::lemma_wrap_in_range(unpacked@ as int);
        }
        I24BE3::from(unpacked)
    }
}

impl FromSample<i64> for I24BE3 {
    fn from_sample_(s: i64) -> (r: Self) {
        let unpacked: I24 = s.to_sample_();
        proof {
            types::i24_be3::lemma_wrap_in_range(unpacked@ as int);
        }
        I24BE3::from(unpacked)
    }
}

impl FromSample<u8> for I24BE3 {
    fn from_sample_(s: u8) -> (r: Self) {
        let unpacked: I24 = s.to_sample_();
        proof {
            types::i24_be3::lemma_wrap_in_range(unpacked@ as int);
        }
        I24BE3::from(unpacked)
    }
}

impl FromSample<u16> for I24BE3 {
    fn from_sample_(s: u16) -> (r: Self) {
        let unpacked: I24 = s.to_sample_();
        proof {
            types::i24_be3::lemma_wrap_in_range(unpacked@ as int);
        }
        I24BE3::from(unpacked)
    }
}

impl FromSample<U24> for I24BE3 {
    fn from_sample_(s: U24) -> (r: Self) {
        let unpacked: I24 = s.to_sample_();
        proof {
            types::i24_be3::lemma_wrap_in_range(unpacked@ as int);
        }
        I24BE3::from(unpacked)
    }
}

impl FromSample<u32> for I24BE3 {
    fn from_sample_(s: u32) -> (r: Self) {
        let unpacked: I24 = s.to_sample_();
        proof {
            types::i24_be3::lemma_wrap_in_range(unpacked@ as int);
        }
        I24BE3::from(unpacked)
    }
}

impl FromSample<U48> for I24BE3 {
    fn from_sample_(s: U48) -> (r: Self) {
        let unpacked: I24 = s.to_sample_();
        proof {
            types::i24_be3::lemma_wrap_in_range(unpacked@ as int);
        }
        I24BE3::from(unpacked)
    }
}

impl FromSample<u64> for I24BE3 {
    fn from_sample_(s: u64) -> (r: Self) {
        let unpacked: I24 = s.to_sample_();
        proof {
            types::i24_be3::lemma_wrap_in_range(unpacked@ as int);
        }
        I24BE3::from(unpacked)
    }
}

impl FromSample<I24LE3> for I24BE3 {
    fn from_sample_(s: I24LE3) -> (r: Self) {
        let unpacked: I24 = s.to_sample_();
        proof {
            types::i24_be3::lemma_wrap_in_range(unpacked@ as int);
        }
        I24BE3::from(unpacked)
    }
}

impl FromSample<U24LE3> for I24BE3 {
    fn from_sample_(s: U24LE3) -> (r: Self) {
        let unpacked: I24 = s.to_sample_();
        proof {
            types::i24_be3::lemma_wrap_in_range(unpacked@ as int);
        }
        I24BE3::from(unpacked)
    }
}

impl FromSample<U24BE3> for I24BE3 {
    fn from_sample_(s: U24BE3) -> (r: Self) {
        let unpacked: I24 = s.to_sample_();
        proof {
            types::i24_be3::lemma_wrap_in_range(unpacked@ as int);
        }
        I24BE3::from(unpacked)
    }
}

impl FromSample<I24BE3> for i8 {
    fn from_sample_(s: I24BE3) -> (r: Self) {
        proof {
            s.lemma_range();
        }
        I24::from(s).to_sample_()
    }
}

impl FromSample<I24BE3> for i16 {
    fn from_sample_(s: I24BE3) -> (r: Self) {
        proof {
            s.lemma_range();
        }
        I24::from(s).to_sample_()
    }
}

impl FromSample<I24BE3> for I24 {
    fn from_sample_(s: I24BE3) -> (r: Self) {
        proof {
            s.lemma_range();
        }
        I24::from(s).to_sample_()
    }
}

impl FromSample<I24BE3> for i32 {
    fn from_sample_(s: I24BE3) -> (r: Self) {
        proof {
            s.lemma_range();
        }
        I24::from(s).to_sample_()
    }
}

impl FromSample<I24BE3> for I48 {
    fn from_sample_(s: I24BE3) -> (r: Self) {
        proof {
            s.lemma_range();
        }
        I24::from(s).to_sample_()
    }
}

impl FromSample<I24BE3> for i64 {
    fn from_sample_(s: I24BE3) -> (r: Self) {
        proof {
            s.lemma_range();
        }
        I24::from(s).to_sample_()
    }
}

impl FromSample<I24BE3> for u8 {
    fn from_sample_(s: I24BE3) -> (r: Self) {
        proof {
            s.lemma_range();
        }
        I24::from(s).to_sample_()
    }
}

impl FromSample<I24BE3> for u16 {
    fn from_sample_(s: I24BE3) -> (r: Self) {
        proof {
            s.lemma_range();
        }
        I24::from(s).to_sample_()
    }
}

impl FromSample<I24BE3> for U24 {
    fn from_sample_(s: I24BE3) -> (r: Self) {
        proof {
            s.lemma_range();
        }
        I24::from(s).to_sample_()
    }
}

impl FromSample<I24BE3> for u32 {
    fn from_sample_(s: I24BE3) -> (r: Self) {
        proof {
            s.lemma_range();
        }
        I24::from(s).to_sample_()
    }
}

impl FromSample<I24BE3> for U48 {
    fn from_sample_(s: I24BE3) -> (r: Self) {
        proof {
            s.lemma_range();
        }
        I24::from(s).to_sample_()
    }
}

impl FromSample<I24BE3> for u64 {
    fn from_sample_(s: I24BE3) -> (r: Self) {
        proof {
            s.lemma_range();
        }
        I24::from(s).to_sample_()
    }
}

impl FromSample<i8> for U24LE3 {
    fn from_sample_(s: i8) -> (r: Self) {
        let unpacked: U24 = s.to_sample_();
        proof {
            types::u24_le3::lemma_wrap_in_range(unpacked@ as int);
        }
        U24LE3::from(unpacked)
    }
}

impl FromSample<i16> for U24LE3 {
    fn from_sample_(s: i16) -> (r: Self) {
        let unpacked: U24 = s.to_sample_();
        proof {
            types::u24_le3::lemma_wrap_in_range(unpacked@ as int);
        }
        U24LE3::from(unpacked)
    }
}

impl FromSample<I24> for U24LE3 {
    fn from_sample_(s: I24) -> (r: Self) {
        let unpacked: U24 = s.to_sample_();
        proof {
            types::u24_le3::lemma_wrap_in_range(unpacked@ as int);
        }
        U24LE3::from(unpacked)
    }
}

impl FromSample<i32> for U24LE3 {
    fn from_sample_(s: i32) -> (r: Self) {
        let unpacked: U24 = s.to_sample_();
        proof {
            types::u24_le3::lemma_wrap_in_range(unpacked@ as int);
        }
        U24LE3::from(unpacked)
    }
}

impl FromSample<I48> for U24LE3 {
    fn from_sample_(s: I48) -> (r: Self) {
        let unpacked: U24 = s.to_sample_();
        proof {
            types::u24_le3::lemma_wrap_in_range(unpacked@ as int);
        }
        U24LE3::from(unpacked)
    }
}

impl FromSample<i64> for U24LE3 {
    fn from_sample_(s: i64) -> (r: Self) {
        let unpacked: U24 = s.to_sample_();
        proof {
            types::u24_le3::lemma_wrap_in_range(unpacked@ as int);
        }
        U24LE3::from(unpacked)
    }
}

impl FromSample<u8> for U24LE3 {
    fn from_sample_(s: u8) -> (r: Self) {
        let unpacked: U24 = s.to_sample_();
        proof {
            types::u24_le3::lemma_wrap_in_range(unpacked@ as int);
        }
        U24LE3::from(unpacked)
    }
}

impl FromSample<u16> for U24LE3 {
    fn from_sample_(s: u16) -> (r: Self) {
        let unpacked: U24 = s.to_sample_();
        proof {
            types::u24_le3::lemma_wrap_in_range(unpacked@ as int);
        }
        U24LE3::from(unpacked)
    }
}

impl FromSample<U24> for U24LE3 {
    fn from_sample_(s: U24) -> (r: Self) {
        let unpacked: U24 = s.to_sample_();
        proof {
            types::u24_le3::lemma_wrap_in_range(unpacked@ as int);
        }
        U24LE3::from(unpacked)
    }
}

impl FromSample<u32> for U24LE3 {
    fn from_sample_(s: u32) -> (r: Self) {
        let unpacked: U24 = s.to_sample_();
        proof {
            types::u24_le3::lemma_wrap_in_range(unpacked@ as int);
        }
        U24LE3::from(unpacked)
    }
}

impl FromSample<U48> for U24LE3 {
    fn from_sample_(s: U48) -> (r: Self) {
        let unpacked: U24 = s.to_sample_();
        proof {
            types::u24_le3::lemma_wrap_in_range(unpacked@ as int);
        }
        U24LE3::from(unpacked)
    }
}

impl FromSample<u64> for U24LE3 {
    fn from_sample_(s: u64) -> (r: Self) {
        let unpacked: U24 = s.to_sample_();
        proof {
            types::u24_le3::lemma_wrap_in_range(unpacked@ as int);
        }
        U24LE3::from(unpacked)
    }
}

impl FromSample<I24LE3> for U24LE3 {
    fn from_sample_(s: I24LE3) -> (r: Self) {
        let unpacked: U24 = s.to_sample_();
        proof {
            types::u24_le3::lemma_wrap_in_range(unpacked@ as int);
        }
        U24LE3::from(unpacked)
    }
}

impl FromSample<I24BE3> for U24LE3 {
    fn from_sample_(s: I24BE3) -> (r: Self) {
        let unpacked: U24 = s.to_sample_();
        proof {
            types::u24_le3::lemma_wrap_in_range(unpacked@ as int);
        }
        U24LE3::from(unpacked)
    }
}

impl FromSample<U24BE3> for U24LE3 {
    fn from_sample_(s: U24BE3) -> (r: Self) {
        let unpacked: U24 = s.to_sample_();
        proof {
            types::u24_le3::lemma_wrap_in_range(unpacked@ as int);
        }
        U24LE3::from(unpacked)
    }
}

impl FromSample<U24LE3> for i8 {
    fn from_sample_(s: U24LE3) -> (r: Self) {
        proof {
            s.lemma_range();
        }
        U24::from(s).to_sample_()
    }
}

impl FromSample<U24LE3> for i16 {
    fn from_sample_(s: U24LE3) -> (r: Self) {
        proof {
            s.lemma_range();
        }
        U24::from(s).to_sample_()
    }
}

impl FromSample<U24LE3> for I24 {
    fn from_sample_(s: U24LE3) -> (r: Self) {
        proof {
            s.lemma_range();
        }
        U24::from(s).to_sample_()
    }
}

impl FromSample<U24LE3> for i32 {
    fn from_sample_(s: U24LE3) -> (r: Self) {
        proof {
            s.lemma_range();
        }
        U24::from(s).to_sample_()
    }
}

impl FromSample<U24LE3> for I48 {
    fn from_sample_(s: U24LE3) -> (r: Self) {
        proof {
            s.lemma_range();
        }
        U24::from(s).to_sample_()
    }
}

impl FromSample<U24LE3> for i64 {
    fn from_sample_(s: U24LE3) -> (r: Self) {
        proof {
            s.lemma_range();
        }
        U24::from(s).to_sample_()
    }
}

impl FromSample<U24LE3> for u8 {
    fn from_sample_(s: U24LE3) -> (r: Self) {
        proof {
            s.lemma_range();
        }
        U24::from(s).to_sample_()
    }
}

impl FromSample<U24LE3> for u16 {
    fn from_sample_(s: U24LE3) -> (r: Self) {
        proof {
            s.lemma_range();
        }
        U24::from(s).to_sample_()
    }
}

impl FromSample<U24LE3> for U24 {
    fn from_sample_(s: U24LE3) -> (r: Self) {
        proof {
            s.lemma_range();
        }
        U24::from(s).to_sample_()
    }
}

impl FromSample<U24LE3> for u32 {
    fn from_sample_(s: U24LE3) -> (r: Self) {
        proof {
            s.lemma_range();
        }
        U24::from(s).to_sample_()
    }
}

impl FromSample<U24LE3> for U48 {
    fn from_sample_(s: U24LE3) -> (r: Self) {
        proof {
            s.lemma_range();
        }
        U24::from(s).to_sample_()
    }
}

impl FromSample<U24LE3> for u64 {
    fn from_sample_(s: U24LE3) -> (r: Self) {
        proof {
            s.lemma_range();
        }
        U24::from(s).to_sample_()
    }
}

impl FromSample<i8> for U24BE3 {
    fn from_sample_(s: i8) -> (r: Self) {
        let unpacked: U24 = s.to_sample_();
        proof {
            types::u24_be3::lemma_wrap_in_range(unpacked@ as int);
        }
        U24BE3::from(unpacked)
    }
}

impl FromSample<i16> for U24BE3 {
    fn from_sample_(s: i16) -> (r: Self) {
        let unpacked: U24 = s.to_sample_();
        proof {
            types::u24_be3::lemma_wrap_in_range(unpacked@ as int);
        }
        U24BE3::from(unpacked)
    }
}

impl FromSample<I24> for U24BE3 {
    fn from_sample_(s: I24) -> (r: Self) {
        let unpacked: U24 = s.to_sample_();
        proof {
            types::u24_be3::lemma_wrap_in_range(unpacked@ as int);
        }
        U24BE3::from(unpacked)
    }
}

impl FromSample<i32> for U24BE3 {
    fn from_sample_(s: i32) -> (r: Self) {
        let unpacked: U24 = s.to_sample_();
        proof {
            types::u24_be3::lemma_wrap_in_range(unpacked@ as int);
        }
        U24BE3::from(unpacked)
    }
}

impl FromSample<I48> for U24BE3 {
    fn from_sample_(s: I48) -> (r: Self) {
        let unpacked: U24 = s.to_sample_();
        proof {
            types::u24_be3::lemma_wrap_in_range(unpacked@ as int);
        }
        U24BE3::from(unpacked)
    }
}

impl FromSample<i64> for U24BE3 {
    fn from_sample_(s: i64) -> (r: Self) {
        let unpacked: U24 = s.to_sample_();
        proof {
            types::u24_be3::lemma_wrap_in_range(unpacked@ as int);
        }
        U24BE3::from(unpacked)
    }
}

impl FromSample<u8> for U24BE3 {
    fn from_sample_(s: u8) -> (r: Self) {
        let unpacked: U24 = s.to_sample_();
        proof {
            types::u24_be3::lemma_wrap_in_range(unpacked@ as int);
        }
        U24BE3::from(unpacked)
    }
}

impl FromSample<u16> for U24BE3 {
    fn from_sample_(s: u16) -> (r: Self) {
        let unpacked: U24 = s.to_sample_();
        proof {
            types::u24_be3::lemma_wrap_in_range(unpacked@ as int);
        }
        U24BE3::from(unpacked)
    }
}

impl FromSample<U24> for U24BE3 {
    fn from_sample_(s: U24) -> (r: Self) {
        let unpacked: U24 = s.to_sample_();
        proof {
            types::u24_be3::lemma_wrap_in_range(unpacked@ as int);
        }
        U24BE3::from(unpacked)
    }
}

impl FromSample<u32> for U24BE3 {
    fn from_sample_(s: u32) -> (r: Self) {
        let unpacked: U24 = s.to_sample_();
        proof {
            types::u24_be3::lemma_wrap_in_range(unpacked@ as int);
        }
        U24BE3::from(unpacked)
    }
}

impl FromSample<U48> for U24BE3 {
    fn from_sample_(s: U48) -> (r: Self) {
        let unpacked: U24 = s.to_sample_();
        proof {
            types::u24_be3::lemma_wrap_in_range(unpacked@ as int);
        }
        U24BE3::from(unpacked)
    }
}

impl FromSample<u64> for U24BE3 {
    fn from_sample_(s: u64) -> (r: Self) {
        let unpacked: U24 = s.to_sample_();
        proof {
            types::u24_be3::lemma_wrap_in_range(unpacked@ as int);
        }
        U24BE3::from(unpacked)
    }
}

impl FromSample<I24LE3> for U24BE3 {
    fn from_sample_(s: I24LE3) -> (r: Self) {
        let unpacked: U24 = s.to_sample_();
        proof {
            types::u24_be3::lemma_wrap_in_range(unpacked@ as int);
        }
        U24BE3::from(unpacked)
    }
}

impl FromSample<I24BE3> for U24BE3 {
    fn from_sample_(s: I24BE3) -> (r: Self) {
        let unpacked: U24 = s.to_sample_();
        proof {
            types::u24_be3::lemma_wrap_in_range(unpacked@ as int);
        }
        U24BE3::from(unpacked)
    }
}

impl FromSample<U24LE3> for U24BE3 {
    fn from_sample_(s: U24LE3) -> (r: Self) {
        let unpacked: U24 = s.to_sample_();
        proof {
            types::u24_be3::lemma_wrap_in_range(unpacked@ as int);
        }
        U24BE3::from(unpacked)
    }
}

impl FromSample<U24BE3> for i8 {
    fn from_sample_(s: U24BE3) -> (r: Self) {
        proof {
            s.lemma_range();
        }
        U24::from(s).to_sample_()
    }
}

impl FromSample<U24BE3> for i16 {
    fn from_sample_(s: U24BE3) -> (r: Self) {
        proof {
            s.lemma_range();
        }
        U24::from(s).to_sample_()
    }
}

impl FromSample<U24BE3> for I24 {
    fn from_sample_(s: U24BE3) -> (r: Self) {
        proof {
            s.lemma_range();
        }
        U24::from(s).to_sample_()
    }
}

impl FromSample<U24BE3> for i32 {
    fn from_sample_(s: U24BE3) -> (r: Self) {
        proof {
            s.lemma_range();
        }
        U24::from(s).to_sample_()
    }
}

impl FromSample<U24BE3> for I48 {
    fn from_sample_(s: U24BE3) -> (r: Self) {
        proof {
            s.lemma_range();
        }
        U24::from(s).to_sample_()
    }
}

impl FromSample<U24BE3> for i64 {
    fn from_sample_(s: U24BE3) -> (r: Self) {
        proof {
            s.lemma_range();
        }
        U24::from(s).to_sample_()
    }
}

impl FromSample<U24BE3> for u8 {
    fn from_sample_(s: U24BE3) -> (r: Self) {
        proof {
            s.lemma_range();
        }
        U24::from(s).to_sample_()
    }
}

impl FromSample<U24BE3> for u16 {
    fn from_sample_(s: U24BE3) -> (r: Self) {
        proof {
            s.lemma_range();
        }
        U24::from(s).to_sample_()
    }
}

impl FromSample<U24BE3> for U24 {
    fn from_sample_(s: U24BE3) -> (r: Self) {
        proof {
            s.lemma_range();
        }
        U24::from(s).to_sample_()
    }
}

impl FromSample<U24BE3> for u32 {
    fn from_sample_(s: U24BE3) -> (r: Self) {
        proof {
            s.lemma_range();
        }
        U24::from(s).to_sample_()
    }
}

impl FromSample<U24BE3> for U48 {
    fn from_sample_(s: U24BE3) -> (r: Self) {
        proof {
            s.lemma_range();
        }
        U24::from(s).to_sample_()
    }
}

impl FromSample<U24BE3> for u64 {
    fn from_sample_(s: U24BE3) -> (r: Self) {
        proof {
            s.lemma_range();
        }
        U24::from(s).to_sample_()
    }
}

} // verus!

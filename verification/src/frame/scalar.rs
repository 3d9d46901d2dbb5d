//! Every sample type is also a frame of a single channel.

use vstd::prelude::*;
use super::{can_offset, offset_amp_spec, signed_amp, slice_of_one_mut, ChannelsMut, Frame, NChannels};
use crate::sample::{I24, I24BE3, I24LE3, I48, U24, U24BE3, U24LE3, U48};
use crate::sample::{Sample, SignedSample};

verus! {

impl Frame for i8 {
    type Sample = i8;

    type NumChannels = NChannels<1>;

    type Signed = <i8 as Sample>::Signed;

    open spec fn samples(self) -> Seq<i8> {
        seq![self]
    }

    open spec fn signed_samples(signed: <i8 as Sample>::Signed) -> Seq<<i8 as Sample>::Signed> {
        seq![signed]
    }

    open spec fn channel_count() -> nat {
        1
    }

    proof fn lemma_len(self) {
    }

    proof fn lemma_signed_len(signed: <i8 as Sample>::Signed) {
    }

    proof fn lemma_channel_count() {
    }

    proof fn lemma_samples_injective(self, other: Self) {
        assert(self == seq![self][0]);
        assert(other == seq![other][0]);
    }

    fn num_channels() -> (r: usize) {
        1
    }

    fn equilibrium() -> (r: Self) {
        <i8 as Sample>::equilibrium()
    }

    fn channel(&self, idx: usize) -> (r: Option<&i8>) {
        if idx == 0 {
            Some(self)
        } else {
            None
        }
    }

    fn channel_mut(&mut self, idx: usize) -> (r: Option<&mut i8>) {
        if idx == 0 {
            Some(self)
        } else {
            None
        }
    }

    fn channels_mut(&mut self) -> (r: ChannelsMut<'_, i8>) {
        ChannelsMut { remaining: slice_of_one_mut(self) }
    }

    fn set_channel(&mut self, idx: usize, sample: i8) -> (r: bool) {
        if idx == 0 {
            *self = sample;
            assert(self.samples() =~= old(self).samples().update(0, sample));
            true
        } else {
            false
        }
    }

    fn to_signed_frame(self) -> (r: <i8 as Sample>::Signed) {
        assert(self.samples()[0] == self);
        let r = self.to_signed_sample();
        assert(Self::signed_samples(r)[0] == r);
        r
    }

    fn offset_amp(self, offset: <i8 as Sample>::Signed) -> (r: Self) {
        assert(self.samples()[0] == self);
        let r = <Self as Sample>::add_amp(self, offset);
        assert(r.samples()[0] == r);
        r
    }

    fn add_amp(self, other: <i8 as Sample>::Signed) -> (r: Self) {
        assert(self.samples()[0] == self);
        assert(Self::signed_samples(other)[0] == other);
        let r = <Self as Sample>::add_amp(self, other);
        assert(r.samples()[0] == r);
        r
    }
}

impl Frame for i16 {
    type Sample = i16;

    type NumChannels = NChannels<1>;

    type Signed = <i16 as Sample>::Signed;

    open spec fn samples(self) -> Seq<i16> {
        seq![self]
    }

    open spec fn signed_samples(signed: <i16 as Sample>::Signed) -> Seq<<i16 as Sample>::Signed> {
        seq![signed]
    }

    open spec fn channel_count() -> nat {
        1
    }

    proof fn lemma_len(self) {
    }

    proof fn lemma_signed_len(signed: <i16 as Sample>::Signed) {
    }

    proof fn lemma_channel_count() {
    }

    proof fn lemma_samples_injective(self, other: Self) {
        assert(self == seq![self][0]);
        assert(other == seq![other][0]);
    }

    fn num_channels() -> (r: usize) {
        1
    }

    fn equilibrium() -> (r: Self) {
        <i16 as Sample>::equilibrium()
    }

    fn channel(&self, idx: usize) -> (r: Option<&i16>) {
        if idx == 0 {
            Some(self)
        } else {
            None
        }
    }

    fn channel_mut(&mut self, idx: usize) -> (r: Option<&mut i16>) {
        if idx == 0 {
            Some(self)
        } else {
            None
        }
    }

    fn channels_mut(&mut self) -> (r: ChannelsMut<'_, i16>) {
        ChannelsMut { remaining: slice_of_one_mut(self) }
    }

    fn set_channel(&mut self, idx: usize, sample: i16) -> (r: bool) {
        if idx == 0 {
            *self = sample;
            assert(self.samples() =~= old(self).samples().update(0, sample));
            true
        } else {
            false
        }
    }

    fn to_signed_frame(self) -> (r: <i16 as Sample>::Signed) {
        assert(self.samples()[0] == self);
        let r = self.to_signed_sample();
        assert(Self::signed_samples(r)[0] == r);
        r
    }

    fn offset_amp(self, offset: <i16 as Sample>::Signed) -> (r: Self) {
        assert(self.samples()[0] == self);
        let r = <Self as Sample>::add_amp(self, offset);
        assert(r.samples()[0] == r);
        r
    }

    fn add_amp(self, other: <i16 as Sample>::Signed) -> (r: Self) {
        assert(self.samples()[0] == self);
        assert(Self::signed_samples(other)[0] == other);
        let r = <Self as Sample>::add_amp(self, other);
        assert(r.samples()[0] == r);
        r
    }
}

impl Frame for I24 {
    type Sample = I24;

    type NumChannels = NChannels<1>;

    type Signed = <I24 as Sample>::Signed;

    open spec fn samples(self) -> Seq<I24> {
        seq![self]
    }

    open spec fn signed_samples(signed: <I24 as Sample>::Signed) -> Seq<<I24 as Sample>::Signed> {
        seq![signed]
    }

    open spec fn channel_count() -> nat {
        1
    }

    proof fn lemma_len(self) {
    }

    proof fn lemma_signed_len(signed: <I24 as Sample>::Signed) {
    }

    proof fn lemma_channel_count() {
    }

    proof fn lemma_samples_injective(self, other: Self) {
        assert(self == seq![self][0]);
        assert(other == seq![other][0]);
    }

    fn num_channels() -> (r: usize) {
        1
    }

    fn equilibrium() -> (r: Self) {
        <I24 as Sample>::equilibrium()
    }

    fn channel(&self, idx: usize) -> (r: Option<&I24>) {
        if idx == 0 {
            Some(self)
        } else {
            None
        }
    }

    fn channel_mut(&mut self, idx: usize) -> (r: Option<&mut I24>) {
        if idx == 0 {
            Some(self)
        } else {
            None
        }
    }

    fn channels_mut(&mut self) -> (r: ChannelsMut<'_, I24>) {
        ChannelsMut { remaining: slice_of_one_mut(self) }
    }

    fn set_channel(&mut self, idx: usize, sample: I24) -> (r: bool) {
        if idx == 0 {
            *self = sample;
            assert(self.samples() =~= old(self).samples().update(0, sample));
            true
        } else {
            false
        }
    }

    fn to_signed_frame(self) -> (r: <I24 as Sample>::Signed) {
        assert(self.samples()[0] == self);
        let r = self.to_signed_sample();
        assert(Self::signed_samples(r)[0] == r);
        r
    }

    fn offset_amp(self, offset: <I24 as Sample>::Signed) -> (r: Self) {
        assert(self.samples()[0] == self);
        let r = <Self as Sample>::add_amp(self, offset);
        assert(r.samples()[0] == r);
        r
    }

    fn add_amp(self, other: <I24 as Sample>::Signed) -> (r: Self) {
        assert(self.samples()[0] == self);
        assert(Self::signed_samples(other)[0] == other);
        let r = <Self as Sample>::add_amp(self, other);
        assert(r.samples()[0] == r);
        r
    }
}

impl Frame for i32 {
    type Sample = i32;

    type NumChannels = NChannels<1>;

    type Signed = <i32 as Sample>::Signed;

    open spec fn samples(self) -> Seq<i32> {
        seq![self]
    }

    open spec fn signed_samples(signed: <i32 as Sample>::Signed) -> Seq<<i32 as Sample>::Signed> {
        seq![signed]
    }

    open spec fn channel_count() -> nat {
        1
    }

    proof fn lemma_len(self) {
    }

    proof fn lemma_signed_len(signed: <i32 as Sample>::Signed) {
    }

    proof fn lemma_channel_count() {
    }

    proof fn lemma_samples_injective(self, other: Self) {
        assert(self == seq![self][0]);
        assert(other == seq![other][0]);
    }

    fn num_channels() -> (r: usize) {
        1
    }

    fn equilibrium() -> (r: Self) {
        <i32 as Sample>::equilibrium()
    }

    fn channel(&self, idx: usize) -> (r: Option<&i32>) {
        if idx == 0 {
            Some(self)
        } else {
            None
        }
    }

    fn channel_mut(&mut self, idx: usize) -> (r: Option<&mut i32>) {
        if idx == 0 {
            Some(self)
        } else {
            None
        }
    }

    fn channels_mut(&mut self) -> (r: ChannelsMut<'_, i32>) {
        ChannelsMut { remaining: slice_of_one_mut(self) }
    }

    fn set_channel(&mut self, idx: usize, sample: i32) -> (r: bool) {
        if idx == 0 {
            *self = sample;
            assert(self.samples() =~= old(self).samples().update(0, sample));
            true
        } else {
            false
        }
    }

    fn to_signed_frame(self) -> (r: <i32 as Sample>::Signed) {
        assert(self.samples()[0] == self);
        let r = self.to_signed_sample();
        assert(Self::signed_samples(r)[0] == r);
        r
    }

    fn offset_amp(self, offset: <i32 as Sample>::Signed) -> (r: Self) {
        assert(self.samples()[0] == self);
        let r = <Self as Sample>::add_amp(self, offset);
        assert(r.samples()[0] == r);
        r
    }

    fn add_amp(self, other: <i32 as Sample>::Signed) -> (r: Self) {
        assert(self.samples()[0] == self);
        assert(Self::signed_samples(other)[0] == other);
        let r = <Self as Sample>::add_amp(self, other);
        assert(r.samples()[0] == r);
        r
    }
}

impl Frame for I48 {
    type Sample = I48;

    type NumChannels = NChannels<1>;

    type Signed = <I48 as Sample>::Signed;

    open spec fn samples(self) -> Seq<I48> {
        seq![self]
    }

    open spec fn signed_samples(signed: <I48 as Sample>::Signed) -> Seq<<I48 as Sample>::Signed> {
        seq![signed]
    }

    open spec fn channel_count() -> nat {
        1
    }

    proof fn lemma_len(self) {
    }

    proof fn lemma_signed_len(signed: <I48 as Sample>::Signed) {
    }

    proof fn lemma_channel_count() {
    }

    proof fn lemma_samples_injective(self, other: Self) {
        assert(self == seq![self][0]);
        assert(other == seq![other][0]);
    }

    fn num_channels() -> (r: usize) {
        1
    }

    fn equilibrium() -> (r: Self) {
        <I48 as Sample>::equilibrium()
    }

    fn channel(&self, idx: usize) -> (r: Option<&I48>) {
        if idx == 0 {
            Some(self)
        } else {
            None
        }
    }

    fn channel_mut(&mut self, idx: usize) -> (r: Option<&mut I48>) {
        if idx == 0 {
            Some(self)
        } else {
            None
        }
    }

    fn channels_mut(&mut self) -> (r: ChannelsMut<'_, I48>) {
        ChannelsMut { remaining: slice_of_one_mut(self) }
    }

    fn set_channel(&mut self, idx: usize, sample: I48) -> (r: bool) {
        if idx == 0 {
            *self = sample;
            assert(self.samples() =~= old(self).samples().update(0, sample));
            true
        } else {
            false
        }
    }

    fn to_signed_frame(self) -> (r: <I48 as Sample>::Signed) {
        assert(self.samples()[0] == self);
        let r = self.to_signed_sample();
        assert(Self::signed_samples(r)[0] == r);
        r
    }

    fn offset_amp(self, offset: <I48 as Sample>::Signed) -> (r: Self) {
        assert(self.samples()[0] == self);
        let r = <Self as Sample>::add_amp(self, offset);
        assert(r.samples()[0] == r);
        r
    }

    fn add_amp(self, other: <I48 as Sample>::Signed) -> (r: Self) {
        assert(self.samples()[0] == self);
        assert(Self::signed_samples(other)[0] == other);
        let r = <Self as Sample>::add_amp(self, other);
        assert(r.samples()[0] == r);
        r
    }
}

impl Frame for i64 {
    type Sample = i64;

    type NumChannels = NChannels<1>;

    type Signed = <i64 as Sample>::Signed;

    open spec fn samples(self) -> Seq<i64> {
        seq![self]
    }

    open spec fn signed_samples(signed: <i64 as Sample>::Signed) -> Seq<<i64 as Sample>::Signed> {
        seq![signed]
    }

    open spec fn channel_count() -> nat {
        1
    }

    proof fn lemma_len(self) {
    }

    proof fn lemma_signed_len(signed: <i64 as Sample>::Signed) {
    }

    proof fn lemma_channel_count() {
    }

    proof fn lemma_samples_injective(self, other: Self) {
        assert(self == seq![self][0]);
        assert(other == seq![other][0]);
    }

    fn num_channels() -> (r: usize) {
        1
    }

    fn equilibrium() -> (r: Self) {
        <i64 as Sample>::equilibrium()
    }

    fn channel(&self, idx: usize) -> (r: Option<&i64>) {
        if idx == 0 {
            Some(self)
        } else {
            None
        }
    }

    fn channel_mut(&mut self, idx: usize) -> (r: Option<&mut i64>) {
        if idx == 0 {
            Some(self)
        } else {
            None
        }
    }

    fn channels_mut(&mut self) -> (r: ChannelsMut<'_, i64>) {
        ChannelsMut { remaining: slice_of_one_mut(self) }
    }

    fn set_channel(&mut self, idx: usize, sample: i64) -> (r: bool) {
        if idx == 0 {
            *self = sample;
            assert(self.samples() =~= old(self).samples().update(0, sample));
            true
        } else {
            false
        }
    }

    fn to_signed_frame(self) -> (r: <i64 as Sample>::Signed) {
        assert(self.samples()[0] == self);
        let r = self.to_signed_sample();
        assert(Self::signed_samples(r)[0] == r);
        r
    }

    fn offset_amp(self, offset: <i64 as Sample>::Signed) -> (r: Self) {
        assert(self.samples()[0] == self);
        let r = <Self as Sample>::add_amp(self, offset);
        assert(r.samples()[0] == r);
        r
    }

    fn add_amp(self, other: <i64 as Sample>::Signed) -> (r: Self) {
        assert(self.samples()[0] == self);
        assert(Self::signed_samples(other)[0] == other);
        let r = <Self as Sample>::add_amp(self, other);
        assert(r.samples()[0] == r);
        r
    }
}

impl Frame for u8 {
    type Sample = u8;

    type NumChannels = NChannels<1>;

    type Signed = <u8 as Sample>::Signed;

    open spec fn samples(self) -> Seq<u8> {
        seq![self]
    }

    open spec fn signed_samples(signed: <u8 as Sample>::Signed) -> Seq<<u8 as Sample>::Signed> {
        seq![signed]
    }

    open spec fn channel_count() -> nat {
        1
    }

    proof fn lemma_len(self) {
    }

    proof fn lemma_signed_len(signed: <u8 as Sample>::Signed) {
    }

    proof fn lemma_channel_count() {
    }

    proof fn lemma_samples_injective(self, other: Self) {
        assert(self == seq![self][0]);
        assert(other == seq![other][0]);
    }

    fn num_channels() -> (r: usize) {
        1
    }

    fn equilibrium() -> (r: Self) {
        <u8 as Sample>::equilibrium()
    }

    fn channel(&self, idx: usize) -> (r: Option<&u8>) {
        if idx == 0 {
            Some(self)
        } else {
            None
        }
    }

    fn channel_mut(&mut self, idx: usize) -> (r: Option<&mut u8>) {
        if idx == 0 {
            Some(self)
        } else {
            None
        }
    }

    fn channels_mut(&mut self) -> (r: ChannelsMut<'_, u8>) {
        ChannelsMut { remaining: slice_of_one_mut(self) }
    }

    fn set_channel(&mut self, idx: usize, sample: u8) -> (r: bool) {
        if idx == 0 {
            *self = sample;
            assert(self.samples() =~= old(self).samples().update(0, sample));
            true
        } else {
            false
        }
    }

    fn to_signed_frame(self) -> (r: <u8 as Sample>::Signed) {
        assert(self.samples()[0] == self);
        let r = self.to_signed_sample();
        assert(Self::signed_samples(r)[0] == r);
        r
    }

    fn offset_amp(self, offset: <u8 as Sample>::Signed) -> (r: Self) {
        assert(self.samples()[0] == self);
        let r = <Self as Sample>::add_amp(self, offset);
        assert(r.samples()[0] == r);
        r
    }

    fn add_amp(self, other: <u8 as Sample>::Signed) -> (r: Self) {
        assert(self.samples()[0] == self);
        assert(Self::signed_samples(other)[0] == other);
        let r = <Self as Sample>::add_amp(self, other);
        assert(r.samples()[0] == r);
        r
    }
}

impl Frame for u16 {
    type Sample = u16;

    type NumChannels = NChannels<1>;

    type Signed = <u16 as Sample>::Signed;

    open spec fn samples(self) -> Seq<u16> {
        seq![self]
    }

    open spec fn signed_samples(signed: <u16 as Sample>::Signed) -> Seq<<u16 as Sample>::Signed> {
        seq![signed]
    }

    open spec fn channel_count() -> nat {
        1
    }

    proof fn lemma_len(self) {
    }

    proof fn lemma_signed_len(signed: <u16 as Sample>::Signed) {
    }

    proof fn lemma_channel_count() {
    }

    proof fn lemma_samples_injective(self, other: Self) {
        assert(self == seq![self][0]);
        assert(other == seq![other][0]);
    }

    fn num_channels() -> (r: usize) {
        1
    }

    fn equilibrium() -> (r: Self) {
        <u16 as Sample>::equilibrium()
    }

    fn channel(&self, idx: usize) -> (r: Option<&u16>) {
        if idx == 0 {
            Some(self)
        } else {
            None
        }
    }

    fn channel_mut(&mut self, idx: usize) -> (r: Option<&mut u16>) {
        if idx == 0 {
            Some(self)
        } else {
            None
        }
    }

    fn channels_mut(&mut self) -> (r: ChannelsMut<'_, u16>) {
        ChannelsMut { remaining: slice_of_one_mut(self) }
    }

    fn set_channel(&mut self, idx: usize, sample: u16) -> (r: bool) {
        if idx == 0 {
            *self = sample;
            assert(self.samples() =~= old(self).samples().update(0, sample));
            true
        } else {
            false
        }
    }

    fn to_signed_frame(self) -> (r: <u16 as Sample>::Signed) {
        assert(self.samples()[0] == self);
        let r = self.to_signed_sample();
        assert(Self::signed_samples(r)[0] == r);
        r
    }

    fn offset_amp(self, offset: <u16 as Sample>::Signed) -> (r: Self) {
        assert(self.samples()[0] == self);
        let r = <Self as Sample>::add_amp(self, offset);
        assert(r.samples()[0] == r);
        r
    }

    fn add_amp(self, other: <u16 as Sample>::Signed) -> (r: Self) {
        assert(self.samples()[0] == self);
        assert(Self::signed_samples(other)[0] == other);
        let r = <Self as Sample>::add_amp(self, other);
        assert(r.samples()[0] == r);
        r
    }
}

impl Frame for U24 {
    type Sample = U24;

    type NumChannels = NChannels<1>;

    type Signed = <U24 as Sample>::Signed;

    open spec fn samples(self) -> Seq<U24> {
        seq![self]
    }

    open spec fn signed_samples(signed: <U24 as Sample>::Signed) -> Seq<<U24 as Sample>::Signed> {
        seq![signed]
    }

    open spec fn channel_count() -> nat {
        1
    }

    proof fn lemma_len(self) {
    }

    proof fn lemma_signed_len(signed: <U24 as Sample>::Signed) {
    }

    proof fn lemma_channel_count() {
    }

    proof fn lemma_samples_injective(self, other: Self) {
        assert(self == seq![self][0]);
        assert(other == seq![other][0]);
    }

    fn num_channels() -> (r: usize) {
        1
    }

    fn equilibrium() -> (r: Self) {
        <U24 as Sample>::equilibrium()
    }

    fn channel(&self, idx: usize) -> (r: Option<&U24>) {
        if idx == 0 {
            Some(self)
        } else {
            None
        }
    }

    fn channel_mut(&mut self, idx: usize) -> (r: Option<&mut U24>) {
        if idx == 0 {
            Some(self)
        } else {
            None
        }
    }

    fn channels_mut(&mut self) -> (r: ChannelsMut<'_, U24>) {
        ChannelsMut { remaining: slice_of_one_mut(self) }
    }

    fn set_channel(&mut self, idx: usize, sample: U24) -> (r: bool) {
        if idx == 0 {
            *self = sample;
            assert(self.samples() =~= old(self).samples().update(0, sample));
            true
        } else {
            false
        }
    }

    fn to_signed_frame(self) -> (r: <U24 as Sample>::Signed) {
        assert(self.samples()[0] == self);
        let r = self.to_signed_sample();
        assert(Self::signed_samples(r)[0] == r);
        r
    }

    fn offset_amp(self, offset: <U24 as Sample>::Signed) -> (r: Self) {
        assert(self.samples()[0] == self);
        let r = <Self as Sample>::add_amp(self, offset);
        assert(r.samples()[0] == r);
        r
    }

    fn add_amp(self, other: <U24 as Sample>::Signed) -> (r: Self) {
        assert(self.samples()[0] == self);
        assert(Self::signed_samples(other)[0] == other);
        let r = <Self as Sample>::add_amp(self, other);
        assert(r.samples()[0] == r);
        r
    }
}

impl Frame for u32 {
    type Sample = u32;

    type NumChannels = NChannels<1>;

    type Signed = <u32 as Sample>::Signed;

    open spec fn samples(self) -> Seq<u32> {
        seq![self]
    }

    open spec fn signed_samples(signed: <u32 as Sample>::Signed) -> Seq<<u32 as Sample>::Signed> {
        seq![signed]
    }

    open spec fn channel_count() -> nat {
        1
    }

    proof fn lemma_len(self) {
    }

    proof fn lemma_signed_len(signed: <u32 as Sample>::Signed) {
    }

    proof fn lemma_channel_count() {
    }

    proof fn lemma_samples_injective(self, other: Self) {
        assert(self == seq![self][0]);
        assert(other == seq![other][0]);
    }

    fn num_channels() -> (r: usize) {
        1
    }

    fn equilibrium() -> (r: Self) {
        <u32 as Sample>::equilibrium()
    }

    fn channel(&self, idx: usize) -> (r: Option<&u32>) {
        if idx == 0 {
            Some(self)
        } else {
            None
        }
    }

    fn channel_mut(&mut self, idx: usize) -> (r: Option<&mut u32>) {
        if idx == 0 {
            Some(self)
        } else {
            None
        }
    }

    fn channels_mut(&mut self) -> (r: ChannelsMut<'_, u32>) {
        ChannelsMut { remaining: slice_of_one_mut(self) }
    }

    fn set_channel(&mut self, idx: usize, sample: u32) -> (r: bool) {
        if idx == 0 {
            *self = sample;
            assert(self.samples() =~= old(self).samples().update(0, sample));
            true
        } else {
            false
        }
    }

    fn to_signed_frame(self) -> (r: <u32 as Sample>::Signed) {
        assert(self.samples()[0] == self);
        let r = self.to_signed_sample();
        assert(Self::signed_samples(r)[0] == r);
        r
    }

    fn offset_amp(self, offset: <u32 as Sample>::Signed) -> (r: Self) {
        assert(self.samples()[0] == self);
        let r = <Self as Sample>::add_amp(self, offset);
        assert(r.samples()[0] == r);
        r
    }

    fn add_amp(self, other: <u32 as Sample>::Signed) -> (r: Self) {
        assert(self.samples()[0] == self);
        assert(Self::signed_samples(other)[0] == other);
        let r = <Self as Sample>::add_amp(self, other);
        assert(r.samples()[0] == r);
        r
    }
}

impl Frame for U48 {
    type Sample = U48;

    type NumChannels = NChannels<1>;

    type Signed = <U48 as Sample>::Signed;

    open spec fn samples(self) -> Seq<U48> {
        seq![self]
    }

    open spec fn signed_samples(signed: <U48 as Sample>::Signed) -> Seq<<U48 as Sample>::Signed> {
        seq![signed]
    }

    open spec fn channel_count() -> nat {
        1
    }

    proof fn lemma_len(self) {
    }

    proof fn lemma_signed_len(signed: <U48 as Sample>::Signed) {
    }

    proof fn lemma_channel_count() {
    }

    proof fn lemma_samples_injective(self, other: Self) {
        assert(self == seq![self][0]);
        assert(other == seq![other][0]);
    }

    fn num_channels() -> (r: usize) {
        1
    }

    fn equilibrium() -> (r: Self) {
        <U48 as Sample>::equilibrium()
    }

    fn channel(&self, idx: usize) -> (r: Option<&U48>) {
        if idx == 0 {
            Some(self)
        } else {
            None
        }
    }

    fn channel_mut(&mut self, idx: usize) -> (r: Option<&mut U48>) {
        if idx == 0 {
            Some(self)
        } else {
            None
        }
    }

    fn channels_mut(&mut self) -> (r: ChannelsMut<'_, U48>) {
        ChannelsMut { remaining: slice_of_one_mut(self) }
    }

    fn set_channel(&mut self, idx: usize, sample: U48) -> (r: bool) {
        if idx == 0 {
            *self = sample;
            assert(self.samples() =~= old(self).samples().update(0, sample));
            true
        } else {
            false
        }
    }

    fn to_signed_frame(self) -> (r: <U48 as Sample>::Signed) {
        assert(self.samples()[0] == self);
        let r = self.to_signed_sample();
        assert(Self::signed_samples(r)[0] == r);
        r
    }

    fn offset_amp(self, offset: <U48 as Sample>::Signed) -> (r: Self) {
        assert(self.samples()[0] == self);
        let r = <Self as Sample>::add_amp(self, offset);
        assert(r.samples()[0] == r);
        r
    }

    fn add_amp(self, other: <U48 as Sample>::Signed) -> (r: Self) {
        assert(self.samples()[0] == self);
        assert(Self::signed_samples(other)[0] == other);
        let r = <Self as Sample>::add_amp(self, other);
        assert(r.samples()[0] == r);
        r
    }
}

impl Frame for u64 {
    type Sample = u64;

    type NumChannels = NChannels<1>;

    type Signed = <u64 as Sample>::Signed;

    open spec fn samples(self) -> Seq<u64> {
        seq![self]
    }

    open spec fn signed_samples(signed: <u64 as Sample>::Signed) -> Seq<<u64 as Sample>::Signed> {
        seq![signed]
    }

    open spec fn channel_count() -> nat {
        1
    }

    proof fn lemma_len(self) {
    }

    proof fn lemma_signed_len(signed: <u64 as Sample>::Signed) {
    }

    proof fn lemma_channel_count() {
    }

    proof fn lemma_samples_injective(self, other: Self) {
        assert(self == seq![self][0]);
        assert(other == seq![other][0]);
    }

    fn num_channels() -> (r: usize) {
        1
    }

    fn equilibrium() -> (r: Self) {
        <u64 as Sample>::equilibrium()
    }

    fn channel(&self, idx: usize) -> (r: Option<&u64>) {
        if idx == 0 {
            Some(self)
        } else {
            None
        }
    }

    fn channel_mut(&mut self, idx: usize) -> (r: Option<&mut u64>) {
        if idx == 0 {
            Some(self)
        } else {
            None
        }
    }

    fn channels_mut(&mut self) -> (r: ChannelsMut<'_, u64>) {
        ChannelsMut { remaining: slice_of_one_mut(self) }
    }

    fn set_channel(&mut self, idx: usize, sample: u64) -> (r: bool) {
        if idx == 0 {
            *self = sample;
            assert(self.samples() =~= old(self).samples().update(0, sample));
            true
        } else {
            false
        }
    }

    fn to_signed_frame(self) -> (r: <u64 as Sample>::Signed) {
        assert(self.samples()[0] == self);
        let r = self.to_signed_sample();
        assert(Self::signed_samples(r)[0] == r);
        r
    }

    fn offset_amp(self, offset: <u64 as Sample>::Signed) -> (r: Self) {
        assert(self.samples()[0] == self);
        let r = <Self as Sample>::add_amp(self, offset);
        assert(r.samples()[0] == r);
        r
    }

    fn add_amp(self, other: <u64 as Sample>::Signed) -> (r: Self) {
        assert(self.samples()[0] == self);
        assert(Self::signed_samples(other)[0] == other);
        let r = <Self as Sample>::add_amp(self, other);
        assert(r.samples()[0] == r);
        r
    }
}

impl Frame for I24LE3 {
    type Sample = I24LE3;

    type NumChannels = NChannels<1>;

    type Signed = <I24LE3 as Sample>::Signed;

    open spec fn samples(self) -> Seq<I24LE3> {
        seq![self]
    }

    open spec fn signed_samples(signed: <I24LE3 as Sample>::Signed) -> Seq<<I24LE3 as Sample>::Signed> {
        seq![signed]
    }

    open spec fn channel_count() -> nat {
        1
    }

    proof fn lemma_len(self) {
    }

    proof fn lemma_signed_len(signed: <I24LE3 as Sample>::Signed) {
    }

    proof fn lemma_channel_count() {
    }

    proof fn lemma_samples_injective(self, other: Self) {
        assert(self == seq![self][0]);
        assert(other == seq![other][0]);
    }

    fn num_channels() -> (r: usize) {
        1
    }

    fn equilibrium() -> (r: Self) {
        <I24LE3 as Sample>::equilibrium()
    }

    fn channel(&self, idx: usize) -> (r: Option<&I24LE3>) {
        if idx == 0 {
            Some(self)
        } else {
            None
        }
    }

    fn channel_mut(&mut self, idx: usize) -> (r: Option<&mut I24LE3>) {
        if idx == 0 {
            Some(self)
        } else {
            None
        }
    }

    fn channels_mut(&mut self) -> (r: ChannelsMut<'_, I24LE3>) {
        ChannelsMut { remaining: slice_of_one_mut(self) }
    }

    fn set_channel(&mut self, idx: usize, sample: I24LE3) -> (r: bool) {
        if idx == 0 {
            *self = sample;
            assert(self.samples() =~= old(self).samples().update(0, sample));
            true
        } else {
            false
        }
    }

    fn to_signed_frame(self) -> (r: <I24LE3 as Sample>::Signed) {
        assert(self.samples()[0] == self);
        let r = self.to_signed_sample();
        assert(Self::signed_samples(r)[0] == r);
        r
    }

    fn offset_amp(self, offset: <I24LE3 as Sample>::Signed) -> (r: Self) {
        assert(self.samples()[0] == self);
        let r = <Self as Sample>::add_amp(self, offset);
        assert(r.samples()[0] == r);
        r
    }

    fn add_amp(self, other: <I24LE3 as Sample>::Signed) -> (r: Self) {
        assert(self.samples()[0] == self);
        assert(Self::signed_samples(other)[0] == other);
        let r = <Self as Sample>::add_amp(self, other);
        assert(r.samples()[0] == r);
        r
    }
}

impl Frame for I24BE3 {
    type Sample = I24BE3;

    type NumChannels = NChannels<1>;

    type Signed = <I24BE3 as Sample>::Signed;

    open spec fn samples(self) -> Seq<I24BE3> {
        seq![self]
    }

    open spec fn signed_samples(signed: <I24BE3 as Sample>::Signed) -> Seq<<I24BE3 as Sample>::Signed> {
        seq![signed]
    }

    open spec fn channel_count() -> nat {
        1
    }

    proof fn lemma_len(self) {
    }

    proof fn lemma_signed_len(signed: <I24BE3 as Sample>::Signed) {
    }

    proof fn lemma_channel_count() {
    }

    proof fn lemma_samples_injective(self, other: Self) {
        assert(self == seq![self][0]);
        assert(other == seq![other][0]);
    }

    fn num_channels() -> (r: usize) {
        1
    }

    fn equilibrium() -> (r: Self) {
        <I24BE3 as Sample>::equilibrium()
    }

    fn channel(&self, idx: usize) -> (r: Option<&I24BE3>) {
        if idx == 0 {
            Some(self)
        } else {
            None
        }
    }

    fn channel_mut(&mut self, idx: usize) -> (r: Option<&mut I24BE3>) {
        if idx == 0 {
            Some(self)
        } else {
            None
        }
    }

    fn channels_mut(&mut self) -> (r: ChannelsMut<'_, I24BE3>) {
        ChannelsMut { remaining: slice_of_one_mut(self) }
    }

    fn set_channel(&mut self, idx: usize, sample: I24BE3) -> (r: bool) {
        if idx == 0 {
            *self = sample;
            assert(self.samples() =~= old(self).samples().update(0, sample));
            true
        } else {
            false
        }
    }

    fn to_signed_frame(self) -> (r: <I24BE3 as Sample>::Signed) {
        assert(self.samples()[0] == self);
        let r = self.to_signed_sample();
        assert(Self::signed_samples(r)[0] == r);
        r
    }

    fn offset_amp(self, offset: <I24BE3 as Sample>::Signed) -> (r: Self) {
        assert(self.samples()[0] == self);
        let r = <Self as Sample>::add_amp(self, offset);
        assert(r.samples()[0] == r);
        r
    }

    fn add_amp(self, other: <I24BE3 as Sample>::Signed) -> (r: Self) {
        assert(self.samples()[0] == self);
        assert(Self::signed_samples(other)[0] == other);
        let r = <Self as Sample>::add_amp(self, other);
        assert(r.samples()[0] == r);
        r
    }
}

impl Frame for U24LE3 {
    type Sample = U24LE3;

    type NumChannels = NChannels<1>;

    type Signed = <U24LE3 as Sample>::Signed;

    open spec fn samples(self) -> Seq<U24LE3> {
        seq![self]
    }

    open spec fn signed_samples(signed: <U24LE3 as Sample>::Signed) -> Seq<<U24LE3 as Sample>::Signed> {
        seq![signed]
    }

    open spec fn channel_count() -> nat {
        1
    }

    proof fn lemma_len(self) {
    }

    proof fn lemma_signed_len(signed: <U24LE3 as Sample>::Signed) {
    }

    proof fn lemma_channel_count() {
    }

    proof fn lemma_samples_injective(self, other: Self) {
        assert(self == seq![self][0]);
        assert(other == seq![other][0]);
    }

    fn num_channels() -> (r: usize) {
        1
    }

    fn equilibrium() -> (r: Self) {
        <U24LE3 as Sample>::equilibrium()
    }

    fn channel(&self, idx: usize) -> (r: Option<&U24LE3>) {
        if idx == 0 {
            Some(self)
        } else {
            None
        }
    }

    fn channel_mut(&mut self, idx: usize) -> (r: Option<&mut U24LE3>) {
        if idx == 0 {
            Some(self)
        } else {
            None
        }
    }

    fn channels_mut(&mut self) -> (r: ChannelsMut<'_, U24LE3>) {
        ChannelsMut { remaining: slice_of_one_mut(self) }
    }

    fn set_channel(&mut self, idx: usize, sample: U24LE3) -> (r: bool) {
        if idx == 0 {
            *self = sample;
            assert(self.samples() =~= old(self).samples().update(0, sample));
            true
        } else {
            false
        }
    }

    fn to_signed_frame(self) -> (r: <U24LE3 as Sample>::Signed) {
        assert(self.samples()[0] == self);
        let r = self.to_signed_sample();
        assert(Self::signed_samples(r)[0] == r);
        r
    }

    fn offset_amp(self, offset: <U24LE3 as Sample>::Signed) -> (r: Self) {
        assert(self.samples()[0] == self);
        let r = <Self as Sample>::add_amp(self, offset);
        assert(r.samples()[0] == r);
        r
    }

    fn add_amp(self, other: <U24LE3 as Sample>::Signed) -> (r: Self) {
        assert(self.samples()[0] == self);
        assert(Self::signed_samples(other)[0] == other);
        let r = <Self as Sample>::add_amp(self, other);
        assert(r.samples()[0] == r);
        r
    }
}

impl Frame for U24BE3 {
    type Sample = U24BE3;

    type NumChannels = NChannels<1>;

    type Signed = <U24BE3 as Sample>::Signed;

    open spec fn samples(self) -> Seq<U24BE3> {
        seq![self]
    }

    open spec fn signed_samples(signed: <U24BE3 as Sample>::Signed) -> Seq<<U24BE3 as Sample>::Signed> {
        seq![signed]
    }

    open spec fn channel_count() -> nat {
        1
    }

    proof fn lemma_len(self) {
    }

    proof fn lemma_signed_len(signed: <U24BE3 as Sample>::Signed) {
    }

    proof fn lemma_channel_count() {
    }

    proof fn lemma_samples_injective(self, other: Self) {
        assert(self == seq![self][0]);
        assert(other == seq![other][0]);
    }

    fn num_channels() -> (r: usize) {
        1
    }

    fn equilibrium() -> (r: Self) {
        <U24BE3 as Sample>::equilibrium()
    }

    fn channel(&self, idx: usize) -> (r: Option<&U24BE3>) {
        if idx == 0 {
            Some(self)
        } else {
            None
        }
    }

    fn channel_mut(&mut self, idx: usize) -> (r: Option<&mut U24BE3>) {
        if idx == 0 {
            Some(self)
        } else {
            None
        }
    }

    fn channels_mut(&mut self) -> (r: ChannelsMut<'_, U24BE3>) {
        ChannelsMut { remaining: slice_of_one_mut(self) }
    }

    fn set_channel(&mut self, idx: usize, sample: U24BE3) -> (r: bool) {
        if idx == 0 {
            *self = sample;
            assert(self.samples() =~= old(self).samples().update(0, sample));
            true
        } else {
            false
        }
    }

    fn to_signed_frame(self) -> (r: <U24BE3 as Sample>::Signed) {
        assert(self.samples()[0] == self);
        let r = self.to_signed_sample();
        assert(Self::signed_samples(r)[0] == r);
        r
    }

    fn offset_amp(self, offset: <U24BE3 as Sample>::Signed) -> (r: Self) {
        assert(self.samples()[0] == self);
        let r = <Self as Sample>::add_amp(self, offset);
        assert(r.samples()[0] == r);
        r
    }

    fn add_amp(self, other: <U24BE3 as Sample>::Signed) -> (r: Self) {
        assert(self.samples()[0] == self);
        assert(Self::signed_samples(other)[0] == other);
        let r = <Self as Sample>::add_amp(self, other);
        assert(r.samples()[0] == r);
        r
    }
}

} // verus!

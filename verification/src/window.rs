//! Module for windowing over a batch of Frames: the `Windower`, which cuts a slice of frames into
//! overlapping chunks, and the window types that say how each chunk is weighted.
//!
//! The weights themselves are floating point and are applied outside this library; a
//! `Rectangle` window weights every frame by one, which leaves each chunk as it is.

use vstd::prelude::*;
use core::marker::PhantomData;
use crate::frame::Frame;

verus! {

/// The window function types that a `Windower` can be made with.
pub trait Type {

}

/// A type of window function, also known as the "raised cosine window".
#[derive(Clone, Copy, Debug, PartialEq, Eq)]
pub struct Hanning;

/// The Hann window function.
#[derive(Clone, Copy, Debug, PartialEq, Eq)]
pub struct Hann;

/// The simplest window type, equivalent to replacing all but *N* values of data sequence by
/// zeroes, making it appear as though the waveform suddenly turns on and off.
#[derive(Clone, Copy, Debug, PartialEq, Eq)]
pub struct Rectangle;

impl Type for Hanning {

}

impl Type for Hann {

}

impl Type for Rectangle {

}

/// Takes a long slice of frames and yields chunks of size `bin` once every `hop`
/// frames.
pub struct Windower<'a, F, W> {
    /// Number of frames per window.
    pub bin: usize,
    /// Number of frames to step forward after each window.
    pub hop: usize,
    /// The frames still to be windowed.
    pub frames: &'a [F],
    wttype: PhantomData<W>,
}

impl<'a, F: Frame, W: Type> Windower<'a, F, W> {
    /// Number of frames per window.
    pub closed spec fn bin_size(&self) -> nat {
        self.bin as nat
    }

    /// Number of frames to step forward after each window.
    pub closed spec fn hop_size(&self) -> nat {
        self.hop as nat
    }

    /// The frames still to be windowed.
    pub closed spec fn remaining(&self) -> Seq<F> {
        self.frames@
    }

    /// Constructor for a new `Windower` iterator.
    pub fn new(frames: &'a [F], bin: usize, hop: usize) -> (r: Self)
        ensures
            r.bin_size() == bin,
            r.hop_size() == hop,
            r.remaining() == frames@,
    {
        Windower { bin, hop, frames, wttype: PhantomData }
    }

    /// Yields the next chunk of `bin` frames and steps forward by `hop` frames, or yields `None`
    /// once fewer than `bin` frames remain.
    pub fn next(&mut self) -> (r: Option<&'a [F]>)
        ensures
            final(self).bin_size() == old(self).bin_size(),
            final(self).hop_size() == old(self).hop_size(),
            old(self).bin_size() <= old(self).remaining().len() ==> {
                &&& r is Some
                &&& r->0@ == old(self).remaining().subrange(0, old(self).bin_size() as int)
                &&& final(self).remaining() == if old(self).hop_size() < old(self).remaining().len() {
                    old(self).remaining().subrange(old(self).hop_size() as int, old(self).remaining().len() as int)
                } else {
                    Seq::empty()
                }
            },
            old(self).bin_size() > old(self).remaining().len() ==> r is None && final(self).remaining()
                == old(self).remaining(),
    {
        let num_frames = self.frames.len();
        if self.bin <= num_frames {
            let (chunk, _) = self.frames.split_at(self.bin);
            let step = if self.hop < num_frames {
                self.hop
            } else {
                num_frames
            };
            let (_, rest) = self.frames.split_at(step);
            self.frames = rest;
            Some(chunk)
        } else {
            None
        }
    }

    /// The number of chunks still to come, as a lower bound and an optional upper bound: exactly
    /// the number of `Some`s that `next` yields before its first `None`. With a hop of zero (or
    /// an empty bin), chunks come forever.
    pub fn size_hint(&self) -> (r: (usize, Option<usize>))
        ensures
            self.bin_size() <= self.remaining().len() && (self.hop_size() == 0 || self.bin_size() == 0)
                ==> r == (usize::MAX, None::<usize>),
            0 < self.bin_size() <= self.remaining().len() && self.hop_size() > 0 ==> {
                let n = (self.remaining().len() - self.bin_size()) as int / self.hop_size() as int + 1;
                &&& r.0 == n
                &&& r.1 == Some(n as usize)
                &&& n == chunk_count(self.remaining().len(), self.bin_size(), self.hop_size())
            },
            self.bin_size() > self.remaining().len() ==> r == (0usize, Some(0usize)),
    {
        let num_frames = self.frames.len();
        if self.bin <= num_frames {
            if self.hop == 0 || self.bin == 0 {
                return (usize::MAX, None);
            }
            proof {
                lemma_chunk_count(num_frames as nat, self.bin as nat, self.hop as nat);
            }
            let remaining_iterations = (num_frames - self.bin) / self.hop + 1;
            (remaining_iterations, Some(remaining_iterations))
        } else {
            (0, Some(0))
        }
    }
}

/// The number of chunks that `next` yields from `len` frames, with a positive bin and hop,
/// before it yields `None`: one while at least `bin` frames remain, stepping `hop` frames on.
pub open spec fn chunk_count(len: nat, bin: nat, hop: nat) -> nat
    decreases len,
{
    if bin == 0 || hop == 0 || bin > len {
        0
    } else {
        1 + chunk_count(if hop < len { (len - hop) as nat } else { 0 }, bin, hop)
    }
}

/// With a positive bin that fits and a positive hop, `next` yields `(len - bin) / hop + 1` chunks.
pub proof fn lemma_chunk_count(len: nat, bin: nat, hop: nat)
    requires
        0 < bin <= len,
        hop > 0,
    ensures
        chunk_count(len, bin, hop) == (len - bin) as int / hop as int + 1,
    decreases len,
{
    if hop < len && bin <= len - hop {
        lemma_chunk_count((len - hop) as nat, bin, hop);
        let a = (len - hop - bin) as int;
        assert((a + hop) / (hop as int) == a / (hop as int) + 1) by (nonlinear_arith)
            requires
                a >= 0,
                hop > 0,
        ;
    } else {
        let a = (len - bin) as int;
        assert(a / (hop as int) == 0) by (nonlinear_arith)
            requires
                0 <= a < hop,
        ;
        if hop < len {
            assert(chunk_count((len - hop) as nat, bin, hop) == 0);
        } else {
            assert(chunk_count(0, bin, hop) == 0);
        }
    }
}

impl<'a, F: Frame> Windower<'a, F, Rectangle> {
    /// Constructor for a `Windower` using the `Rectangle` window function.
    pub fn rectangle(frames: &'a [F], bin: usize, hop: usize) -> (r: Self)
        ensures
            r.bin_size() == bin,
            r.hop_size() == hop,
            r.remaining() == frames@,
    {
        Windower::new(frames, bin, hop)
    }
}

impl<'a, F: Frame> Windower<'a, F, Hanning> {
    /// Constructor for a `Windower` using the `Hanning` window function.
    pub fn hanning(frames: &'a [F], bin: usize, hop: usize) -> (r: Self)
        ensures
            r.bin_size() == bin,
            r.hop_size() == hop,
            r.remaining() == frames@,
    {
        Windower::new(frames, bin, hop)
    }
}

impl<'a, F: Frame> Windower<'a, F, Hann> {
    /// Constructor for a `Windower` using the `Hann` window function.
    pub fn hann(frames: &'a [F], bin: usize, hop: usize) -> (r: Self)
        ensures
            r.bin_size() == bin,
            r.hop_size() == hop,
            r.remaining() == frames@,
    {
        Windower::new(frames, bin, hop)
    }
}

} // verus!

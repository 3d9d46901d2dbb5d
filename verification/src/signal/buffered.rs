//! A signal that buffers the frames of the signal it wraps in a bounded ring buffer.

use vstd::prelude::*;
use super::Signal;
use crate::ring_buffer::{Bounded, SliceMut};

verus! {

/// Buffers the signal using the given ring buffer.
///
/// When `next` is called on a `Buffered` signal, it will first check if there are any frames
/// buffered. If there are, the next buffered frame is popped from the front of the buffer and
/// returned. If there are no frames buffered, the buffer is filled with frames from the inner
/// signal before the first of them is popped and returned.
#[derive(Clone)]
pub struct Buffered<S, D> {
    signal: S,
    ring_buffer: Bounded<D>,
}

/// An iterator that pops elements from the inner bounded ring buffer and yields them.
///
/// Returns `None` once the inner ring buffer is exhausted.
pub struct BufferedFrames<'a, D: 'a> {
    /// The ring buffer being drained.
    pub ring_buffer: &'a mut Bounded<D>,
}

impl<S, D> Buffered<S, D> {
    /// The buffered signal.
    pub closed spec fn source(&self) -> S {
        self.signal
    }

    /// The ring buffer holding the frames taken from the signal but not yet yielded.
    pub closed spec fn buffer(&self) -> Bounded<D> {
        self.ring_buffer
    }

    pub(crate) fn new(signal: S, ring_buffer: Bounded<D>) -> (r: Self)
        ensures
            r.source() == signal,
            r.buffer() == ring_buffer,
    {
        Buffered { signal, ring_buffer }
    }
}

/// The frames yielded from `buffered` and `source` in turn: first the buffered ones, then those
/// of the source.
pub open spec fn buffered_then<S: Signal>(buffered: Seq<S::Frame>, source: S, k: nat) -> S::Frame {
    if k < buffered.len() {
        buffered[k as int]
    } else {
        source.upcoming((k - buffered.len()) as nat)
    }
}

/// Fills an empty ring buffer with as many frames from `signal` as it can hold.
fn fill<S: Signal, D: SliceMut<Element = S::Frame>>(signal: &mut S, ring_buffer: &mut Bounded<D>)
    requires
        (*old(signal)).wf(),
        old(ring_buffer).wf(),
        old(ring_buffer)@.len() == 0,
    ensures
        (*final(signal)).wf(),
        final(ring_buffer).wf(),
        final(ring_buffer).storage().len() == old(ring_buffer).storage().len(),
        final(ring_buffer)@.len() == old(ring_buffer).storage().len(),
        final(ring_buffer)@.len() > 0,
        forall|k: nat|
            #![trigger (*old(signal)).upcoming(k)]
            buffered_then(final(ring_buffer)@, *final(signal), k) == (*old(signal)).upcoming(k),
{
    let max_len = ring_buffer.max_len();
    proof {
        ring_buffer.lemma_wf();
    }
    let ghost start = *signal;
    let mut i: usize = 0;
    while i < max_len
        invariant
            i <= max_len,
            max_len == ring_buffer.storage().len(),
            (*signal).wf(),
            ring_buffer.wf(),
            ring_buffer@.len() == i,
            forall|j: int| 0 <= j < i ==> #[trigger] ring_buffer@[j] == start.upcoming(j as nat),
            forall|k: nat| #[trigger] (*signal).upcoming(k) == start.upcoming(k + i as nat),
        decreases max_len - i,
    {
        let frame = signal.next();
        ring_buffer.push(frame);
        i = i + 1;
    }
    assert forall|k: nat| #![trigger start.upcoming(k)]
        buffered_then(ring_buffer@, *signal, k) == start.upcoming(k) by {
        if k >= max_len {
            assert((*signal).upcoming((k - max_len) as nat) == start.upcoming(
                ((k - max_len) as nat + max_len) as nat,
            ));
        }
    }
}

impl<S: Signal, D: SliceMut<Element = S::Frame>> Buffered<S, D> {
    /// Produces an iterator yielding the next batch of buffered frames.
    ///
    /// The returned iterator returns `None` once the inner ring buffer becomes exhausted.
    ///
    /// If the inner ring buffer is empty when this method is called, the ring buffer will first
    /// be filled using `Buffered`'s inner `signal` before `BufferedFrames` is returned.
    pub fn next_frames(&mut self) -> (r: BufferedFrames<'_, D>)
        requires
            old(self).wf(),
        ensures
            r.buffer().wf(),
            r.buffer().storage().len() == old(self).buffer().storage().len(),
            final(self).buffer() == *final(r.ring_buffer),
            final(self).source().wf(),
            old(self).buffer()@.len() > 0 ==> {
                &&& r.buffer() == old(self).buffer()
                &&& final(self).source() == old(self).source()
            },
            old(self).buffer()@.len() == 0 ==> {
                &&& r.buffer()@.len() == old(self).buffer().storage().len()
                &&& forall|k: int|
                    0 <= k < r.buffer()@.len() ==> #[trigger] r.buffer()@[k] == old(
                        self,
                    ).upcoming(k as nat)
                &&& forall|k: nat|
                    #[trigger] final(self).source().upcoming(k) == old(self).source().upcoming(
                        k + r.buffer()@.len(),
                    )
            },
    {
        if self.ring_buffer.len() == 0 {
            let ghost before = self.signal;
            fill(&mut self.signal, &mut self.ring_buffer);
            proof {
                let n = self.ring_buffer@.len();
                assert forall|k: nat| #[trigger] self.signal.upcoming(k) == before.upcoming(k + n) by {
                    assert(buffered_then(self.ring_buffer@, self.signal, k + n) == before.upcoming(k + n));
                }
            }
        }
        BufferedFrames { ring_buffer: &mut self.ring_buffer }
    }

    /// Consumes the `Buffered` signal and returns its inner signal `S` and bounded ring buffer.
    pub fn into_parts(self) -> (r: (S, Bounded<D>))
        ensures
            r.0 == self.source(),
            r.1 == self.buffer(),
    {
        let Buffered { signal, ring_buffer } = self;
        (signal, ring_buffer)
    }
}

impl<S: Signal, D: SliceMut<Element = S::Frame>> Signal for Buffered<S, D> {
    type Frame = S::Frame;

    open spec fn wf(&self) -> bool {
        self.source().wf() && self.buffer().wf()
    }

    open spec fn upcoming(&self, k: nat) -> S::Frame {
        buffered_then(self.buffer()@, self.source(), k)
    }

    open spec fn exhausted(&self) -> bool {
        self.buffer()@.len() == 0 && self.source().exhausted()
    }

    fn next(&mut self) -> (r: S::Frame)
        ensures
            final(self).buffer().storage().len() == old(self).buffer().storage().len(),
    {
        if self.ring_buffer.len() == 0 {
            fill(&mut self.signal, &mut self.ring_buffer);
        }
        let ghost filled = *self;
        let r = self.ring_buffer.pop().unwrap();
        proof {
            assert(r == filled.upcoming(0));
            assert forall|k: nat| #[trigger] (*self).upcoming(k) == filled.upcoming(k + 1) by {
            }
        }
        r
    }

    fn is_exhausted(&self) -> (r: bool) {
        self.ring_buffer.len() == 0 && self.signal.is_exhausted()
    }
}

impl<'a, D: SliceMut> BufferedFrames<'a, D> where D::Element: Copy {
    /// The ring buffer being drained, as it stands now.
    pub open spec fn buffer(&self) -> Bounded<D> {
        *self.ring_buffer
    }

    /// Pops the next frame from the front of the ring buffer, or yields `None` once it is
    /// empty.
    pub fn next(&mut self) -> (r: Option<D::Element>)
        requires
            old(self).buffer().wf(),
        ensures
            final(self).buffer().wf(),
            *final(final(self).ring_buffer) == *final(old(self).ring_buffer),
            final(self).buffer().storage().len() == old(self).buffer().storage().len(),
            old(self).buffer()@.len() == 0 ==> r is None && final(self).buffer() == old(self).buffer(),
            old(self).buffer()@.len() > 0 ==> {
                &&& r == Some(old(self).buffer()@[0])
                &&& final(self).buffer()@ == old(self).buffer()@.drop_first()
            },
    {
        self.ring_buffer.pop()
    }
}

/// Buffering does not change a signal: a `Buffered` signal with an empty buffer yields exactly
/// the frames of the signal it buffers, however often its buffer is refilled.
pub proof fn law_buffering_is_transparent<S: Signal, D: SliceMut<Element = S::Frame>>(
    buffered: Buffered<S, D>,
)
    requires
        buffered.buffer()@.len() == 0,
    ensures
        forall|k: nat| #[trigger] buffered.upcoming(k) == buffered.source().upcoming(k),
{
}

} // verus!

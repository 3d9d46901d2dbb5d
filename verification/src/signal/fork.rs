//! Splitting one signal into two branches that both yield every one of its frames.
//!
//! The frames that one branch has taken from the signal and the other has not yet yielded wait
//! in a bounded ring buffer. Sharing the fork between the two branches is left to the caller;
//! here each call says which branch it is made for.

use vstd::prelude::*;
use super::Signal;
use crate::ring_buffer::{Bounded, SliceMut};

verus! {

/// One of the two branches of a `Fork`.
#[derive(Copy, Clone, Debug, PartialEq, Eq)]
pub enum Branch {
    A,
    B,
}

/// The other branch.
pub open spec fn other(branch: Branch) -> Branch {
    match branch {
        Branch::A => Branch::B,
        Branch::B => Branch::A,
    }
}

/// A type which allows for `fork`ing a single signal into two branches that yield the same
/// frames.
#[derive(Clone)]
pub struct Fork<S, D> {
    signal: S,
    ring_buffer: Bounded<D>,
    pending_a: bool,
}

impl<S, D> Fork<S, D> {
    /// The forked signal.
    pub closed spec fn source(&self) -> S {
        self.signal
    }

    /// The frames that one branch has taken from the signal and the other has yet to yield.
    pub closed spec fn buffer(&self) -> Bounded<D> {
        self.ring_buffer
    }

    /// The branch whose frames wait in the buffer.
    pub closed spec fn pending(&self) -> Branch {
        if self.pending_a {
            Branch::A
        } else {
            Branch::B
        }
    }

    /// Forks `signal`, the buffered frames being for branch `B`.
    pub fn new(signal: S, ring_buffer: Bounded<D>) -> (r: Self)
        ensures
            r.source() == signal,
            r.buffer() == ring_buffer,
            r.pending() == Branch::B,
    {
        Fork { signal, ring_buffer, pending_a: false }
    }
}

impl<S: Signal, D: SliceMut<Element = S::Frame>> Fork<S, D> {
    /// Whether the fork can yield frames for either branch.
    pub open spec fn wf(&self) -> bool {
        self.source().wf() && self.buffer().wf()
    }

    /// The frame that the `k`-th call of `next` for `branch` from now yields, as long as neither
    /// branch runs ahead of the other by more frames than the buffer holds.
    pub open spec fn branch_upcoming(&self, branch: Branch, k: nat) -> S::Frame {
        if branch == self.pending() && k < self.buffer()@.len() {
            self.buffer()@[k as int]
        } else if branch == self.pending() {
            self.source().upcoming((k - self.buffer()@.len()) as nat)
        } else {
            self.source().upcoming(k)
        }
    }

    /// Yields the next frame of `branch`.
    ///
    /// The branch whose frames wait in the buffer takes them from there; the other takes the
    /// next frame of the signal and leaves it in the buffer for its sibling. When the buffer is
    /// already full, the oldest waiting frame is dropped to make room: the sibling misses it.
    pub fn next(&mut self, branch: Branch) -> (r: S::Frame)
        requires
            old(self).wf(),
        ensures
            final(self).wf(),
            final(self).buffer().storage().len() == old(self).buffer().storage().len(),
            r == old(self).branch_upcoming(branch, 0),
            forall|k: nat|
                #![trigger final(self).branch_upcoming(branch, k)]
                final(self).branch_upcoming(branch, k) == old(self).branch_upcoming(branch, k + 1),
            !(old(self).pending() == other(branch) && old(self).buffer()@.len() == old(
                self,
            ).buffer().storage().len()) ==> forall|k: nat|
                #![trigger final(self).branch_upcoming(other(branch), k)]
                final(self).branch_upcoming(other(branch), k) == old(self).branch_upcoming(
                    other(branch),
                    k,
                ),
            old(self).pending() == other(branch) && old(self).buffer()@.len() == old(
                self,
            ).buffer().storage().len() ==> forall|k: nat|
                #![trigger final(self).branch_upcoming(other(branch), k)]
                final(self).branch_upcoming(other(branch), k) == old(self).branch_upcoming(
                    other(branch),
                    k + 1,
                ),
    {
        let mine = match branch {
            Branch::A => true,
            Branch::B => false,
        };
        if self.pending_a == mine {
            if let Some(frame) = self.ring_buffer.pop() {
                return frame;
            }
            self.pending_a = !mine;
        }
        let ghost before = *self;
        let frame = self.signal.next();
        self.ring_buffer.push(frame);
        proof {
            self.ring_buffer.lemma_wf();
            before.ring_buffer.lemma_wf();
            let o = other(branch);
            let n = before.buffer()@.len();
            if !(old(self).pending() == o && n == before.buffer().storage().len()) {
                assert forall|k: nat| #![trigger self.branch_upcoming(o, k)]
                    self.branch_upcoming(o, k) == old(self).branch_upcoming(o, k) by {
                    if k >= self.buffer()@.len() {
                        assert(self.source().upcoming((k - self.buffer()@.len()) as nat)
                            == before.source().upcoming(((k - self.buffer()@.len()) + 1) as nat));
                    }
                }
            }
        }
        frame
    }

    /// The number of frames waiting in the buffer for `branch`.
    pub fn pending_frames(&self, branch: Branch) -> (r: usize)
        ensures
            branch == self.pending() ==> r == self.buffer()@.len(),
            branch != self.pending() ==> r == 0,
    {
        let mine = match branch {
            Branch::A => true,
            Branch::B => false,
        };
        if self.pending_a == mine {
            self.ring_buffer.len()
        } else {
            0
        }
    }
}

/// The two branches of a fork made over an empty buffer both yield exactly the frames of the
/// forked signal.
pub proof fn law_fork_branches_agree<S: Signal, D: SliceMut<Element = S::Frame>>(fork: Fork<S, D>)
    requires
        fork.buffer()@.len() == 0,
    ensures
        forall|k: nat| #[trigger] fork.branch_upcoming(Branch::A, k) == fork.source().upcoming(k),
        forall|k: nat| #[trigger] fork.branch_upcoming(Branch::B, k) == fork.source().upcoming(k),
{
}

} // verus!

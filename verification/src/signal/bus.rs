//! A bus that sends the frames of one signal to any number of outputs.
//!
//! Every output yields every frame of the signal from the moment it was sent. The frames that
//! some output has yet to read wait in a buffer; a frame leaves the buffer once every output has
//! read it. Sharing the bus between its outputs is left to the caller; here each call names the
//! output it is made for by its key.

use vstd::prelude::*;
use std::collections::VecDeque;
use super::Signal;

verus! {

/// A type which allows for `send`ing a single `Signal` to multiple outputs.
pub struct Bus<S: Signal> {
    signal: S,
    buffer: VecDeque<S::Frame>,
    frames_read: Vec<(usize, usize)>,
    next_key: usize,
}

/// The frame at position `at` of the buffered frames followed by those of the source.
pub open spec fn stream<S: Signal>(buffered: Seq<S::Frame>, source: S, at: nat) -> S::Frame {
    if at < buffered.len() {
        buffered[at as int]
    } else {
        source.upcoming((at - buffered.len()) as nat)
    }
}

/// Moving the source's next frame into the buffer leaves the stream as it is.
proof fn lemma_stream_push<S: Signal>(buffered: Seq<S::Frame>, before: S, after: S)
    requires
        forall|k: nat| #[trigger] after.upcoming(k) == before.upcoming(k + 1),
    ensures
        forall|at: nat|
            #[trigger] stream(buffered.push(before.upcoming(0)), after, at) == stream(
                buffered,
                before,
                at,
            ),
{
    assert forall|at: nat|
        #[trigger] stream(buffered.push(before.upcoming(0)), after, at) == stream(
            buffered,
            before,
            at,
        ) by {
        if at > buffered.len() {
            assert(after.upcoming((at - buffered.len() - 1) as nat) == before.upcoming(
                ((at - buffered.len() - 1) + 1) as nat,
            ));
        }
    }
}

/// Dropping the oldest buffered frame moves the stream along by one.
proof fn lemma_stream_drop<S: Signal>(buffered: Seq<S::Frame>, source: S)
    requires
        buffered.len() > 0,
    ensures
        forall|at: nat|
            #[trigger] stream(buffered.drop_first(), source, at) == stream(buffered, source, at + 1),
{
}

/// Dropping the `n` oldest buffered frames moves the stream along by `n`.
proof fn lemma_stream_skip<S: Signal>(buffered: Seq<S::Frame>, source: S, n: nat)
    requires
        n <= buffered.len(),
    ensures
        forall|at: nat|
            #[trigger] stream(buffered.subrange(n as int, buffered.len() as int), source, at) == stream(
                buffered,
                source,
                at + n,
            ),
{
}

impl<S: Signal> Bus<S> {
    /// The signal whose frames are sent.
    pub closed spec fn source(&self) -> S {
        self.signal
    }

    /// The frames that some output has yet to read, oldest first.
    pub closed spec fn buffered(&self) -> Seq<S::Frame> {
        self.buffer@
    }

    /// The keys of the outputs with the number of buffered frames each has read, in no
    /// particular order.
    pub closed spec fn readers(&self) -> Seq<(usize, usize)> {
        self.frames_read@
    }

    /// The key that the next output is sent under.
    pub closed spec fn key_to_send(&self) -> usize {
        self.next_key
    }

    /// Whether `key` names an output of the bus.
    pub open spec fn has_output(&self, key: usize) -> bool {
        exists|i: int| 0 <= i < self.readers().len() && (#[trigger] self.readers()[i]).0 == key
    }

    /// The position of `key` among the readers.
    pub open spec fn position(&self, key: usize) -> int {
        choose|i: int| 0 <= i < self.readers().len() && (#[trigger] self.readers()[i]).0 == key
    }

    /// The number of buffered frames that the output `key` has read.
    pub open spec fn frames_read_by(&self, key: usize) -> nat {
        self.readers()[self.position(key)].1 as nat
    }

    /// The signal can yield frames, no key names two outputs, and no output has read past the
    /// buffer.
    pub open spec fn wf(&self) -> bool {
        &&& self.source().wf()
        &&& forall|i: int, j: int|
            0 <= i < self.readers().len() && 0 <= j < self.readers().len() && (
            #[trigger] self.readers()[i]).0 == (#[trigger] self.readers()[j]).0 ==> i == j
        &&& forall|i: int|
            0 <= i < self.readers().len() ==> (#[trigger] self.readers()[i]).1 <= self.buffered().len()
    }

    /// The number of buffered frames that the output `key` has yet to read.
    pub open spec fn pending(&self, key: usize) -> int {
        self.buffered().len() - self.frames_read_by(key)
    }

    /// Every output's key was handed out before the key to send next, so that key is fresh.
    pub open spec fn keys_below_next(&self) -> bool {
        forall|key: usize| #[trigger] self.has_output(key) ==> key < self.key_to_send()
    }

    /// The frame that the `k`-th call of `next_frame` for the output `key` from now yields: the
    /// buffered frames it has not read, then those of the signal.
    pub open spec fn output_upcoming(&self, key: usize, k: nat) -> S::Frame {
        stream(self.buffered(), self.source(), self.frames_read_by(key) + k)
    }

    /// Two buses whose readers hold the same keys at the same positions name the same outputs,
    /// at the same positions.
    proof fn lemma_same_keys(&self, other: &Self)
        requires
            self.wf(),
            other.readers().len() == self.readers().len(),
            forall|i: int| 0 <= i < self.readers().len() ==> (#[trigger] other.readers()[i]).0 == self.readers()[i].0,
        ensures
            forall|key: usize| #[trigger] other.has_output(key) == self.has_output(key),
            forall|key: usize| self.has_output(key) ==> #[trigger] other.position(key) == self.position(key),
    {
        assert forall|key: usize| #[trigger] other.has_output(key) == self.has_output(key) by {
            if self.has_output(key) {
                let p = self.position(key);
                assert(other.readers()[p].0 == key);
            }
            if other.has_output(key) {
                let p = other.position(key);
                assert(self.readers()[p].0 == key);
            }
        }
        assert forall|key: usize| self.has_output(key) implies #[trigger] other.position(key) == self.position(key) by {
            let p = self.position(key);
            assert(other.readers()[p].0 == key);
            assert(other.has_output(key));
            let q = other.position(key);
            assert(self.readers()[q].0 == key);
        }
    }

    /// Construct a bus over `signal`, with no outputs yet.
    pub fn new(signal: S) -> (r: Self)
        requires
            signal.wf(),
        ensures
            r.wf(),
            r.source() == signal,
            r.buffered().len() == 0,
            r.readers().len() == 0,
            r.key_to_send() == 0,
            r.keys_below_next(),
    {
        Bus { signal, buffer: VecDeque::new(), frames_read: Vec::new(), next_key: 0 }
    }

    /// The position of `key` among the readers, if it names an output.
    fn find(&self, key: usize) -> (r: Option<usize>)
        requires
            self.wf(),
        ensures
            r is Some <==> self.has_output(key),
            r matches Some(i) ==> i == self.position(key) && i < self.readers().len()
                && self.readers()[i as int].0 == key,
    {
        let mut i: usize = 0;
        while i < self.frames_read.len()
            invariant
                self.wf(),
                i <= self.frames_read@.len(),
                forall|j: int| 0 <= j < i ==> (#[trigger] self.frames_read@[j]).0 != key,
            decreases self.frames_read@.len() - i,
        {
            if self.frames_read[i].0 == key {
                proof {
                    assert(0 <= i < self.readers().len() && self.readers()[i as int].0 == key);
                    assert(self.has_output(key));
                    let p = self.position(key);
                    assert(self.readers()[p].0 == key);
                }
                return Some(i);
            }
            i = i + 1;
        }
        None
    }

    /// Produce a new output of the bus, and return its key: it yields the signal's frames from
    /// here on.
    pub fn send(&mut self) -> (r: usize)
        requires
            old(self).wf(),
        ensures
            final(self).wf(),
            r == old(self).key_to_send(),
            final(self).key_to_send() == if r < usize::MAX { (r + 1) as usize } else { 0 },
            old(self).keys_below_next() ==> !old(self).has_output(r),
            old(self).keys_below_next() && r < usize::MAX ==> final(self).keys_below_next(),
            final(self).has_output(r),
            final(self).source() == old(self).source(),
            final(self).buffered() == old(self).buffered(),
            final(self).frames_read_by(r) == old(self).buffered().len(),
            final(self).pending(r) == 0,
            forall|key: usize|
                key != r && old(self).has_output(key) ==> #[trigger] final(self).pending(key) == old(self).pending(key),
            forall|k: nat| #[trigger] final(self).output_upcoming(r, k) == old(self).source().upcoming(k),
            forall|key: usize|
                key != r ==> (final(self).has_output(key) <==> old(self).has_output(key)),
            forall|key: usize, k: nat|
                key != r && old(self).has_output(key) ==> #[trigger] final(self).output_upcoming(key, k)
                    == old(self).output_upcoming(key, k),
    {
        let key = self.next_key;
        let found = self.find(key);
        self.next_key = self.next_key.wrapping_add(1);
        let num_frames = self.buffer.len();
        match found {
            Some(i) => {
                self.frames_read.set(i, (key, num_frames));
            },
            None => {
                self.frames_read.push((key, num_frames));
            },
        }
        proof {
            let at = if found is Some {
                found->0 as int
            } else {
                old(self).readers().len() as int
            };
            assert(self.readers()[at].0 == key);
            assert(self.has_output(key));
            let pos = self.position(key);
            assert(self.readers()[pos].0 == key);
            assert(pos == at);
            assert forall|other: usize| other != key implies (self.has_output(other)
                <==> old(self).has_output(other)) by {
                if old(self).has_output(other) {
                    let j = old(self).position(other);
                    assert(self.readers()[j].0 == other);
                }
                if self.has_output(other) {
                    let j = self.position(other);
                    assert(old(self).readers()[j].0 == other);
                }
            }
            assert forall|other: usize, k: nat| other != key && old(self).has_output(other) implies #[trigger] self.output_upcoming(other, k)
                == old(self).output_upcoming(other, k) by {
                let j = old(self).position(other);
                assert(self.readers()[j].0 == other);
                assert(self.position(other) == j);
            }
        }
        key
    }

    /// Whether `key` names an output of the bus.
    pub fn contains_output(&self, key: usize) -> (r: bool)
        requires
            self.wf(),
        ensures
            r == self.has_output(key),
    {
        self.find(key).is_some()
    }

    /// Whether the output `key` has read every buffered frame and the signal is exhausted.
    pub fn is_exhausted(&self, key: usize) -> (r: bool)
        requires
            self.wf(),
            self.has_output(key),
        ensures
            r == (self.frames_read_by(key) == self.buffered().len() && self.source().exhausted()),
    {
        self.pending_frames(key) == 0 && self.signal.is_exhausted()
    }

    /// The number of frames that the output `key` has yet to read from the buffer.
    pub fn pending_frames(&self, key: usize) -> (r: usize)
        requires
            self.wf(),
            self.has_output(key),
        ensures
            r == self.buffered().len() - self.frames_read_by(key),
    {
        let i = self.find(key).unwrap();
        self.buffer.len() - self.frames_read[i].1
    }
}

impl<S: Signal> Bus<S> {
    /// Yields the next frame for the output `key`.
    ///
    /// The frame comes from the buffer if the output is behind, and from the signal otherwise.
    /// Once every output has read the oldest buffered frame, it leaves the buffer.
    ///
    /// `key` must name an output of the bus.
    pub fn next_frame(&mut self, key: usize) -> (r: S::Frame)
        requires
            old(self).wf(),
            old(self).has_output(key),
        ensures
            final(self).wf(),
            r == old(self).output_upcoming(key, 0),
            final(self).key_to_send() == old(self).key_to_send(),
            old(self).keys_below_next() ==> final(self).keys_below_next(),
            forall|other: usize| #[trigger] final(self).has_output(other) == old(self).has_output(other),
            old(self).pending(key) > 0 ==> {
                &&& final(self).source() == old(self).source()
                &&& final(self).pending(key) == old(self).pending(key) - 1
                &&& forall|other: usize|
                    other != key && old(self).has_output(other) ==> #[trigger] final(self).pending(other)
                        == old(self).pending(other)
            },
            old(self).pending(key) == 0 ==> {
                &&& forall|k: nat| #[trigger] final(self).source().upcoming(k) == old(self).source().upcoming(k + 1)
                &&& final(self).pending(key) == 0
                &&& forall|other: usize|
                    other != key && old(self).has_output(other) ==> #[trigger] final(self).pending(other)
                        == old(self).pending(other) + 1
            },
            forall|k: nat| #[trigger] final(self).output_upcoming(key, k) == old(self).output_upcoming(key, k + 1),
            forall|other: usize, k: nat|
                other != key && old(self).has_output(other) ==> #[trigger] final(self).output_upcoming(other, k)
                    == old(self).output_upcoming(other, k),
    {
        let idx = self.find(key).unwrap();
        let frames_read = self.frames_read[idx].1;
        let num_frames = self.buffer.len();
        let ghost start = *self;
        let frame = if frames_read < num_frames {
            self.buffer[frames_read]
        } else {
            let f = self.signal.next();
            self.buffer.push_back(f);
            proof {
                lemma_stream_push(start.buffered(), start.source(), self.source());
            }
            f
        };
        let ghost fetched = *self;
        let total = self.buffer.len();
        proof {
            assert(fetched.readers() == start.readers());
            assert(frames_read < total);
            assert forall|at: nat| #[trigger] stream(fetched.buffered(), fetched.source(), at) == stream(
                start.buffered(),
                start.source(),
                at,
            ) by {
                if frames_read >= num_frames {
                    assert(fetched.buffered() == start.buffered().push(start.source().upcoming(0)));
                }
            }
        }
        let len = self.frames_read.len();
        let mut least = true;
        let mut i: usize = 0;
        while i < len
            invariant
                self.next_key == old(self).next_key,
                len == self.frames_read@.len(),
                i <= len,
                idx < len,
                least <==> forall|j: int| 0 <= j < i && j != idx ==> (#[trigger] self.frames_read@[j]).1 > frames_read,
            decreases len - i,
        {
            if i != idx && self.frames_read[i].1 <= frames_read {
                least = false;
            }
            i = i + 1;
        }
        let new_frames_read = if least {
            self.buffer.pop_front();
            let ghost after_pop = self.buffer@;
            proof {
                assert(after_pop =~= fetched.buffered().drop_first());
            }
            let mut j: usize = 0;
            while j < len
                invariant
                self.next_key == old(self).next_key,
                    self.buffer@ == after_pop,
                    after_pop == fetched.buffered().drop_first(),
                    self.signal == fetched.source(),
                    len == self.frames_read@.len(),
                    j <= len,
                    idx < len,
                    forall|m: int| 0 <= m < len ==> (#[trigger] self.frames_read@[m]).0 == fetched.readers()[m].0,
                    forall|m: int| 0 <= m < len && m != idx ==> fetched.readers()[m].1 > frames_read,
                    forall|m: int| 0 <= m < j && m != idx ==> (#[trigger] self.frames_read@[m]).1 == fetched.readers()[m].1 - 1,
                    forall|m: int| j <= m < len || m == idx ==> (#[trigger] self.frames_read@[m]).1 == fetched.readers()[m].1,
                decreases len - j,
            {
                if j != idx {
                    let (k, v) = self.frames_read[j];
                    self.frames_read.set(j, (k, v - 1));
                }
                j = j + 1;
            }
            proof {
                lemma_stream_drop(fetched.buffered(), fetched.source());
            }
            frames_read
        } else {
            frames_read + 1
        };
        self.frames_read.set(idx, (key, new_frames_read));
        proof {
            start.lemma_same_keys(self);
            if least {
                assert(self.buffered() == fetched.buffered().drop_first());
            } else {
                assert(self.buffered() == fetched.buffered());
            }
            assert forall|m: int| 0 <= m < self.readers().len() implies (#[trigger] self.readers()[m]).1
                <= self.buffered().len() by {
                assert(start.readers()[m].1 <= start.buffered().len());
            }
            assert(self.position(key) == idx);
            assert(start.position(key) == idx);
            assert(self.frames_read_by(key) == new_frames_read);
            assert(start.frames_read_by(key) == frames_read);
            if frames_read >= num_frames {
                assert forall|k: nat| #[trigger] self.source().upcoming(k) == start.source().upcoming(k + 1) by {
                }
            }
            assert forall|other: usize| other != key && start.has_output(other) implies #[trigger] self.pending(other)
                == start.pending(other) + (if frames_read < num_frames { 0int } else { 1int }) by {
                let p = start.position(other);
                assert(self.position(other) == p);
                assert(start.readers()[p].0 == other);
                assert(p != idx);
            }
            assert forall|other: usize, k: nat| other != key && start.has_output(other) implies #[trigger] self.output_upcoming(other, k)
                == start.output_upcoming(other, k) by {
                let p = start.position(other);
                assert(self.position(other) == p);
                assert(start.readers()[p].0 == other);
                assert(p != idx);
                let c = start.readers()[p].1 as nat;
                if least {
                    assert(self.readers()[p].1 == c - 1);
                    assert(stream(fetched.buffered().drop_first(), fetched.source(), (c - 1 + k) as nat)
                        == stream(fetched.buffered(), fetched.source(), (c - 1 + k + 1) as nat));
                } else {
                    assert(self.readers()[p].1 == c);
                }
                assert(stream(fetched.buffered(), fetched.source(), c + k) == stream(
                    start.buffered(),
                    start.source(),
                    c + k,
                ));
            }
            assert forall|k: nat| #[trigger] self.output_upcoming(key, k) == start.output_upcoming(key, k + 1) by {
                assert(stream(fetched.buffered(), fetched.source(), (frames_read + k + 1) as nat) == stream(
                    start.buffered(),
                    start.source(),
                    (frames_read + k + 1) as nat,
                ));
                if least {
                    assert(stream(fetched.buffered().drop_first(), fetched.source(), (frames_read + k) as nat)
                        == stream(fetched.buffered(), fetched.source(), (frames_read + k + 1) as nat));
                }
            }
            assert(stream(fetched.buffered(), fetched.source(), frames_read as nat) == stream(
                start.buffered(),
                start.source(),
                frames_read as nat,
            ));
        }
        frame
    }

    /// Removes the output `key` from the bus, and drops the buffered frames that every remaining
    /// output has read.
    pub fn drop_output(&mut self, key: usize)
        requires
            old(self).wf(),
        ensures
            final(self).wf(),
            !final(self).has_output(key),
            final(self).source() == old(self).source(),
            forall|other: usize|
                other != key && old(self).has_output(other) ==> #[trigger] final(self).pending(other)
                    == old(self).pending(other),
            final(self).key_to_send() == old(self).key_to_send(),
            old(self).keys_below_next() ==> final(self).keys_below_next(),
            forall|other: usize|
                other != key ==> #[trigger] final(self).has_output(other) == old(self).has_output(other),
            forall|other: usize, k: nat|
                other != key && old(self).has_output(other) ==> #[trigger] final(self).output_upcoming(other, k)
                    == old(self).output_upcoming(other, k),
    {
        let ghost start = *self;
        let found = self.find(key);
        if let Some(i) = found {
            self.frames_read.remove(i);
        }
        let ghost removed = *self;
        proof {
            if found is Some {
                assert(removed.readers() == start.readers().remove(found->0 as int));
            } else {
                assert(removed.readers() == start.readers());
            }
        }
        let len = self.frames_read.len();
        let mut least = self.buffer.len();
        let mut i: usize = 0;
        while i < len
            invariant
                self.next_key == old(self).next_key,
                len == self.frames_read@.len(),
                i <= len,
                least <= self.buffer@.len(),
                forall|j: int| 0 <= j < i ==> least <= (#[trigger] self.frames_read@[j]).1,
            decreases len - i,
        {
            if self.frames_read[i].1 < least {
                least = self.frames_read[i].1;
            }
            i = i + 1;
        }
        if least > 0 {
            let mut j: usize = 0;
            while j < len
                invariant
                self.next_key == old(self).next_key,
                    self.buffer@ == removed.buffered(),
                    self.signal == removed.source(),
                    len == self.frames_read@.len(),
                    j <= len,
                    forall|m: int| 0 <= m < len ==> least <= removed.readers()[m].1,
                    forall|m: int| 0 <= m < len ==> (#[trigger] self.frames_read@[m]).0 == removed.readers()[m].0,
                    forall|m: int| 0 <= m < j ==> (#[trigger] self.frames_read@[m]).1 == removed.readers()[m].1 - least,
                    forall|m: int| j <= m < len ==> (#[trigger] self.frames_read@[m]).1 == removed.readers()[m].1,
                decreases len - j,
            {
                let (k, v) = self.frames_read[j];
                self.frames_read.set(j, (k, v - least));
                j = j + 1;
            }
            let mut p: usize = 0;
            while p < least
                invariant
                self.next_key == old(self).next_key,
                    least <= removed.buffered().len(),
                    p <= least,
                    self.buffer@ == removed.buffered().subrange(p as int, removed.buffered().len() as int),
                    self.signal == removed.source(),
                    len == self.frames_read@.len(),
                    forall|m: int| 0 <= m < len ==> (#[trigger] self.frames_read@[m]).0 == removed.readers()[m].0,
                    forall|m: int| 0 <= m < len ==> (#[trigger] self.frames_read@[m]).1 == removed.readers()[m].1 - least,
                decreases least - p,
            {
                self.buffer.pop_front();
                p = p + 1;
                proof {
                    assert(self.buffer@ =~= removed.buffered().subrange(p as int, removed.buffered().len() as int));
                }
            }
        }
        proof {
            lemma_stream_skip(removed.buffered(), removed.source(), least as nat);
            assert(self.buffered() =~= removed.buffered().subrange(least as int, removed.buffered().len() as int));
            assert forall|m: int, n: int|
                0 <= m < self.readers().len() && 0 <= n < self.readers().len() && (#[trigger] self.readers()[m]).0
                    == (#[trigger] self.readers()[n]).0 implies m == n by {
                let pm = if found is Some && m >= found->0 { m + 1 } else { m };
                let pn = if found is Some && n >= found->0 { n + 1 } else { n };
                assert(removed.readers()[m] == start.readers()[pm]);
                assert(removed.readers()[n] == start.readers()[pn]);
            }
            assert forall|m: int| 0 <= m < self.readers().len() implies (#[trigger] self.readers()[m]).1
                <= self.buffered().len() by {
                let pm = if found is Some && m >= found->0 { m + 1 } else { m };
                assert(removed.readers()[m] == start.readers()[pm]);
                assert(start.readers()[pm].1 <= start.buffered().len());
            }
            assert(!self.has_output(key)) by {
                if self.has_output(key) {
                    let m = self.position(key);
                    let pm = if found is Some && m >= found->0 { m + 1 } else { m };
                    assert(removed.readers()[m] == start.readers()[pm]);
                }
            }
            assert forall|other: usize| other != key implies #[trigger] self.has_output(other)
                == start.has_output(other) by {
                if start.has_output(other) {
                    let p = start.position(other);
                    let q = if found is Some && p > found->0 { p - 1 } else { p };
                    assert(removed.readers()[q] == start.readers()[p]);
                    assert(self.readers()[q].0 == other);
                }
                if self.has_output(other) {
                    let m = self.position(other);
                    let pm = if found is Some && m >= found->0 { m + 1 } else { m };
                    assert(removed.readers()[m] == start.readers()[pm]);
                }
            }
            assert forall|other: usize, k: nat| other != key && start.has_output(other) implies #[trigger] self.output_upcoming(other, k)
                == start.output_upcoming(other, k) by {
                let p = start.position(other);
                let q = if found is Some && p > found->0 { p - 1 } else { p };
                assert(removed.readers()[q] == start.readers()[p]);
                assert(self.readers()[q].0 == other);
                assert(self.has_output(other));
                assert(self.position(other) == q);
                let c = start.readers()[p].1 as nat;
                assert(self.readers()[q].1 == c - least);
                assert(stream(self.buffered(), self.source(), (c - least + k) as nat) == stream(
                    removed.buffered(),
                    removed.source(),
                    (c - least + k + least) as nat,
                ));
            }
            assert forall|other: usize| other != key && start.has_output(other) implies #[trigger] self.pending(other)
                == start.pending(other) by {
                let p = start.position(other);
                let q = if found is Some && p > found->0 { p - 1 } else { p };
                assert(removed.readers()[q] == start.readers()[p]);
                assert(self.readers()[q].0 == other);
                assert(self.has_output(other));
                assert(self.position(other) == q);
                assert(self.readers()[q].1 == start.readers()[p].1 - least);
            }
        }
    }
}

} // verus!

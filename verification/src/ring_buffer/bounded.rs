//! A ring buffer with an upper bound on its length.

use vstd::prelude::*;
use super::{chain_refs, replace_at, IterMut, Slice, SliceMut};

verus! {

/// The storage index of the element `i` places after storage index `start`, wrapping around a
/// buffer of `max` elements.
pub open spec fn wrap_index(start: int, i: int, max: int) -> int {
    if start + i < max {
        start + i
    } else {
        start + i - max
    }
}

/// `wrap_index`, computed without overflowing.
fn wrapping_index(start: usize, i: usize, max: usize) -> (r: usize)
    requires
        start < max,
        i < max,
    ensures
        r == wrap_index(start as int, i as int, max as int),
        r < max,
{
    if i < max - start {
        start + i
    } else {
        i - (max - start)
    }
}

/// A ring buffer with an upper bound on its length.
///
/// *AKA Circular buffer, cyclic buffer, FIFO queue.*
///
/// Elements can be pushed to the back of the buffer and popped from the front.
///
/// Elements must be `Copy` due to the behaviour of the `push` and `pop` methods.
#[derive(Copy, Clone, Debug, PartialEq, Eq, Hash)]
pub struct Bounded<S> {
    start: usize,
    len: usize,
    data: S,
}

impl<S: Slice> Bounded<S> where S::Element: Copy {
    /// The buffer's data in storage order, including the slots that hold no element.
    pub closed spec fn storage(&self) -> Seq<S::Element> {
        self.data.slice_view()
    }

    /// The storage index of the element at the front of the buffer.
    pub closed spec fn start_index(&self) -> int {
        self.start as int
    }

    /// The number of elements in the buffer.
    pub closed spec fn length(&self) -> nat {
        self.len as nat
    }

    /// The start lies within the (non-empty) data slice, and the length does not exceed it.
    pub closed spec fn wf(&self) -> bool {
        &&& self.start < self.data.slice_view().len()
        &&& self.len <= self.data.slice_view().len()
    }

    /// A well-formed buffer has room for at least one element, and holds no more than it has
    /// room for.
    pub proof fn lemma_wf(&self)
        requires
            self.wf(),
        ensures
            self.storage().len() > 0,
            self@.len() <= self.storage().len(),
    {
    }

    /// The elements of the buffer from front to back.
    pub open spec fn view(&self) -> Seq<S::Element> {
        Seq::new(
            self.length(),
            |i: int| self.storage()[wrap_index(self.start_index(), i, self.storage().len() as int)],
        )
    }

    /// The same as `from`, but assumes that the given `data` is full of valid elements and
    /// initialises the ring buffer with a length equal to `max_len`.
    pub fn from_full(data: S) -> (r: Self)
        requires
            data.slice_view().len() > 0,
        ensures
            r.wf(),
            r@ == data.slice_view(),
            r.storage() == data.slice_view(),
            r.start_index() == 0,
    {
        let len = data.slice().len();
        let r = Self::from_raw_parts(0, len, data);
        assert(r@ =~= data.slice_view());
        r
    }

    /// The maximum length that the `Bounded` buffer can be before pushing would overwrite the
    /// front of the buffer.
    pub fn max_len(&self) -> (r: usize)
        ensures
            r == self.storage().len(),
    {
        self.data.slice().len()
    }

    /// The current length of the ring buffer.
    pub fn len(&self) -> (r: usize)
        ensures
            r == self@.len(),
    {
        self.len
    }

    /// Whether or not the ring buffer's length is equal to `0`.
    pub fn is_empty(&self) -> (r: bool)
        ensures
            r == (self@.len() == 0),
    {
        self.len == 0
    }

    /// Whether or not the ring buffer's length is equal to the maximum length.
    pub fn is_full(&self) -> (r: bool)
        ensures
            r == (self@.len() == self.storage().len()),
    {
        self.len == self.max_len()
    }

    /// The start and end slices that make up the ring buffer.
    ///
    /// These two slices chained together represent all elements within the buffer in order.
    pub fn slices(&self) -> (r: (&[S::Element], &[S::Element]))
        requires
            self.wf(),
        ensures
            r.0@ + r.1@ == self@,
            self.start_index() + self@.len() <= self.storage().len() ==> {
                &&& r.0@ == self.storage().subrange(self.start_index(), self.start_index() + self@.len())
                &&& r.1@.len() == 0
            },
            self.start_index() + self@.len() > self.storage().len() ==> {
                &&& r.0@ == self.storage().subrange(self.start_index(), self.storage().len() as int)
                &&& r.1@ == self.storage().subrange(
                    0,
                    self.start_index() + self@.len() - self.storage().len(),
                )
            },
    {
        let (end, start) = self.data.slice().split_at(self.start);
        if start.len() <= self.len {
            let end_len = self.len - start.len();
            let (end, _) = end.split_at(end_len);
            assert(start@ + end@ =~= self@);
            (start, end)
        } else {
            let (start, _) = start.split_at(self.len);
            let (end, _) = end.split_at(0);
            assert(start@ + end@ =~= self@);
            (start, end)
        }
    }

    /// References to the elements of the buffer, from front to back.
    pub fn iter(&self) -> (r: Vec<&S::Element>)
        requires
            self.wf(),
        ensures
            r@.len() == self@.len(),
            forall|i: int| 0 <= i < r@.len() ==> *#[trigger] r@[i] == self@[i],
    {
        let (start, end) = self.slices();
        chain_refs(start, end)
    }

    /// The same as the `slices` method, but returns mutable slices instead.
    pub fn slices_mut(&mut self) -> (r: (&mut [S::Element], &mut [S::Element]))
        where
            S: SliceMut,
        requires
            old(self).wf(),
        ensures
            r.0@ + r.1@ == old(self)@,
            final(self).start_index() == old(self).start_index(),
            final(self).length() == old(self).length(),
            old(self).start_index() + old(self).length() >= old(self).storage().len() ==> final(self).storage()
                == final(r.1)@ + old(self).storage().subrange(
                    old(self).start_index() + old(self).length() - old(self).storage().len(),
                    old(self).start_index(),
                ) + final(r.0)@,
            old(self).start_index() + old(self).length() < old(self).storage().len() ==> final(self).storage()
                == final(r.1)@ + old(self).storage().subrange(0, old(self).start_index()) + final(r.0)@
                    + old(self).storage().subrange(
                    old(self).start_index() + old(self).length(),
                    old(self).storage().len() as int,
                ),
    {
        let len = self.len;
        let (end, start) = self.data.slice_mut().split_at_mut(self.start);
        if start.len() <= len {
            let end_len = len - start.len();
            let (end, unused) = end.split_at_mut(end_len);
            assert(start@ + end@ =~= old(self)@);
            assert(unused@ =~= old(self).storage().subrange(end_len as int, old(self).start_index()));
            (start, end)
        } else {
            let (start, after) = start.split_at_mut(len);
            let (end, before) = end.split_at_mut(0);
            assert(start@ + end@ =~= old(self)@);
            assert(before@ =~= old(self).storage().subrange(0, old(self).start_index()));
            assert(after@ =~= old(self).storage().subrange(
                old(self).start_index() + old(self).length(),
                old(self).storage().len() as int,
            ));
            (start, end)
        }
    }

    /// Mutable references to the elements of the buffer, from front to back.
    pub fn iter_mut(&mut self) -> (r: IterMut<'_, S::Element>)
        where
            S: SliceMut,
        requires
            old(self).wf(),
        ensures
            r.front@ + r.back@ == old(self)@,
            final(self).start_index() == old(self).start_index(),
            final(self).length() == old(self).length(),
            old(self).start_index() + old(self).length() >= old(self).storage().len() ==> final(self).storage()
                == final(r.back)@ + old(self).storage().subrange(
                    old(self).start_index() + old(self).length() - old(self).storage().len(),
                    old(self).start_index(),
                ) + final(r.front)@,
            old(self).start_index() + old(self).length() < old(self).storage().len() ==> final(self).storage()
                == final(r.back)@ + old(self).storage().subrange(0, old(self).start_index())
                    + final(r.front)@ + old(self).storage().subrange(
                    old(self).start_index() + old(self).length(),
                    old(self).storage().len() as int,
                ),
    {
        let (front, back) = self.slices_mut();
        IterMut { front, back }
    }

    /// Borrows the item at the given index, counted from the front of the buffer.
    ///
    /// Returns `None` if there is no element at the given index.
    pub fn get(&self, index: usize) -> (r: Option<&S::Element>)
        requires
            self.wf(),
        ensures
            r is Some <==> index < self@.len(),
            r matches Some(e) ==> *e == self@[index as int],
    {
        if index >= self.len {
            return None;
        }
        let wrapped_index = wrapping_index(self.start, index, self.max_len());
        Some(&self.data.slice()[wrapped_index])
    }

    /// Mutably borrows the item at the given index, counted from the front of the buffer.
    ///
    /// Returns `None` if there is no element at the given index.
    pub fn get_mut(&mut self, index: usize) -> (r: Option<&mut S::Element>)
        where
            S: SliceMut,
        requires
            old(self).wf(),
        ensures
            r is Some <==> index < old(self)@.len(),
            r matches Some(e) ==> {
                &&& *e == old(self)@[index as int]
                &&& final(self).wf()
                &&& final(self).start_index() == old(self).start_index()
                &&& final(self).length() == old(self).length()
                &&& final(self).storage() == old(self).storage().update(
                    wrap_index(old(self).start_index(), index as int, old(self).storage().len() as int),
                    *final(e),
                )
                &&& final(self)@ == old(self)@.update(index as int, *final(e))
            },
            r is None ==> *final(self) == *old(self),
    {
        if index >= self.len {
            return None;
        }
        let wrapped_index = wrapping_index(self.start, index, self.max_len());
        let (front, back) = self.data.slice_mut().split_at_mut(wrapped_index);
        let r = back.first_mut();
        proof {
            let n = old(self).storage().len() as int;
            let w = wrapped_index as int;
            assert(front@ == old(self).storage().subrange(0, w));
            assert forall|i: int| 0 <= i < old(self).length() && i != index implies wrap_index(
                old(self).start_index(),
                i,
                n,
            ) != w by {
            }
        }
        r
    }

    /// Pushes the given element to the back of the buffer.
    ///
    /// If the buffer length is currently the max length, this replaces the element at the front of
    /// the buffer and returns it.
    ///
    /// If the buffer length is less than the max length, this pushes the element to the back of
    /// the buffer and increases the length of the buffer by `1`. `None` is returned.
    pub fn push(&mut self, elem: S::Element) -> (r: Option<S::Element>)
        where
            S: SliceMut,
        requires
            old(self).wf(),
        ensures
            final(self).wf(),
            final(self).storage().len() == old(self).storage().len(),
            old(self)@.len() == old(self).storage().len() ==> {
                &&& r == Some(old(self)@[0])
                &&& final(self)@ == old(self)@.drop_first().push(elem)
                &&& final(self).storage() == old(self).storage().update(old(self).start_index(), elem)
                &&& final(self).start_index() == wrap_index(
                    old(self).start_index(),
                    1,
                    old(self).storage().len() as int,
                )
            },
            old(self)@.len() < old(self).storage().len() ==> {
                &&& r is None
                &&& final(self)@ == old(self)@.push(elem)
                &&& final(self).storage() == old(self).storage().update(
                    wrap_index(old(self).start_index(), old(self)@.len() as int, old(self).storage().len() as int),
                    elem,
                )
                &&& final(self).start_index() == old(self).start_index()
            },
    {
        let max_len = self.max_len();
        if self.len == max_len {
            let mut next_start = self.start + 1;
            if next_start >= max_len {
                next_start = 0;
            }
            let old_elem = replace_at(self.data.slice_mut(), self.start, elem);
            self.start = next_start;
            assert(self@ =~= old(self)@.drop_first().push(elem));
            return Some(old_elem);
        }
        let index = wrapping_index(self.start, self.len, max_len);
        replace_at(self.data.slice_mut(), index, elem);
        self.len = self.len + 1;
        assert(self@ =~= old(self)@.push(elem));
        None
    }

    /// Pop an element from the front of the ring buffer.
    ///
    /// If the buffer is empty, this returns `None`.
    pub fn pop(&mut self) -> (r: Option<S::Element>)
        where
            S: SliceMut,
        requires
            old(self).wf(),
        ensures
            final(self).wf(),
            final(self).storage().len() == old(self).storage().len(),
            old(self)@.len() == 0 ==> r is None && *final(self) == *old(self),
            old(self)@.len() > 0 ==> {
                &&& r == Some(old(self)@[0])
                &&& final(self)@ == old(self)@.drop_first()
                &&& final(self).storage() == old(self).storage()
                &&& final(self).start_index() == wrap_index(
                    old(self).start_index(),
                    1,
                    old(self).storage().len() as int,
                )
            },
    {
        if self.len == 0 {
            return None;
        }
        let max_len = self.max_len();
        let mut next_start = self.start + 1;
        if next_start >= max_len {
            next_start = 0;
        }
        let old_elem = self.data.slice()[self.start];
        self.start = next_start;
        self.len = self.len - 1;
        assert(self@ =~= old(self)@.drop_first());
        Some(old_elem)
    }

    /// Creates a `Bounded` ring buffer from its start index, length and data slice.
    ///
    /// The maximum length of the `Bounded` ring buffer is the length of the given slice, which
    /// `start` must lie within and `len` must not exceed.
    pub fn from_raw_parts(start: usize, len: usize, data: S) -> (r: Self)
        requires
            start < data.slice_view().len(),
            len <= data.slice_view().len(),
        ensures
            r.wf(),
            r.start_index() == start,
            r@.len() == len,
            r.storage() == data.slice_view(),
    {
        Bounded { start, len, data }
    }

    /// Produce an iterator that drains the ring buffer by `pop`ping each element one at a time.
    ///
    /// Only elements yielded by `DrainBounded::next` are popped from the ring buffer.
    pub fn drain(&mut self) -> (r: DrainBounded<'_, S>)
        where
            S: SliceMut,
        requires
            old(self).wf(),
        ensures
            *r.bounded == *old(self),
            *final(self) == *final(r.bounded),
    {
        DrainBounded { bounded: self }
    }

    /// Consumes the `Bounded` ring buffer and returns its parts: the index of the front
    /// element within the data slice, the length of the buffer, and the data slice.
    pub fn into_raw_parts(self) -> (r: (usize, usize, S))
        ensures
            r.0 == self.start_index(),
            r.1 == self.length(),
            r.2.slice_view() == self.storage(),
    {
        let Bounded { start, len, data } = self;
        (start, len, data)
    }

    /// Construct an empty `Bounded` ring buffer from the given, non-empty, data slice.
    pub fn from(data: S) -> (r: Self)
        requires
            data.slice_view().len() > 0,
        ensures
            r.wf(),
            r@ == Seq::<S::Element>::empty(),
            r.storage() == data.slice_view(),
            r.start_index() == 0,
    {
        let r = Self::from_raw_parts(0, 0, data);
        assert(r@ =~= Seq::<S::Element>::empty());
        r
    }
}

/// An iterator that drains the ring buffer by `pop`ping each element one at a time.
///
/// Only elements yielded by `DrainBounded::next` are popped from the ring buffer: all
/// non-yielded elements remain in it.
pub struct DrainBounded<'a, S: 'a> {
    /// The buffer being drained.
    pub bounded: &'a mut Bounded<S>,
}

impl<'a, S: SliceMut> DrainBounded<'a, S> where S::Element: Copy {
    /// The buffer being drained, as it stands now.
    pub open spec fn buffer(&self) -> Bounded<S> {
        *self.bounded
    }

    /// Pops the next element from the front of the buffer.
    pub fn next(&mut self) -> (r: Option<S::Element>)
        requires
            old(self).bounded.wf(),
        ensures
            final(self).bounded.wf(),
            *final(final(self).bounded) == *final(old(self).bounded),
            final(self).bounded.storage().len() == old(self).bounded.storage().len(),
            old(self).bounded@.len() == 0 ==> r is None && *final(self).bounded == *old(self).bounded,
            old(self).bounded@.len() > 0 ==> {
                &&& r == Some(old(self).bounded@[0])
                &&& final(self).bounded@ == old(self).bounded@.drop_first()
            },
    {
        self.bounded.pop()
    }

    /// The number of elements left to drain.
    pub fn len(&self) -> (r: usize)
        ensures
            r == self.buffer()@.len(),
    {
        self.bounded.len()
    }
}

} // verus!

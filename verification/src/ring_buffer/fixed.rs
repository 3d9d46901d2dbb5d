//! A ring buffer with a fixed length.

use vstd::prelude::*;
use super::{chain_refs, replace_at, IterMut, Slice, SliceMut};

verus! {

/// A ring buffer with a fixed length.
///
/// *AKA Circular buffer, cyclic buffer, FIFO queue.*
///
/// Elements are pushed and popped from the buffer simultaneously in order to retain a consistent
/// length.
#[derive(Copy, Clone, Debug, PartialEq, Eq, Hash)]
pub struct Fixed<S> {
    first: usize,
    data: S,
}

impl<S: Slice> Fixed<S> {
    /// The buffer's data in storage order.
    pub closed spec fn storage(&self) -> Seq<S::Element> {
        self.data.slice_view()
    }

    /// The storage index of the element at the front of the buffer.
    pub closed spec fn first_index(&self) -> int {
        self.first as int
    }

    /// The first index lies within the (non-empty) data slice.
    pub closed spec fn wf(&self) -> bool {
        self.first < self.data.slice_view().len()
    }

    /// A well-formed buffer's first index lies within its storage, and it holds as many elements
    /// as its storage has room for.
    pub proof fn lemma_wf(&self)
        requires
            self.wf(),
        ensures
            0 <= self.first_index() < self.storage().len(),
            self@.len() == self.storage().len(),
    {
    }

    /// The elements of the buffer from front to back: the storage rotated to start at the
    /// first index.
    pub open spec fn view(&self) -> Seq<S::Element> {
        self.storage().subrange(self.first_index(), self.storage().len() as int) + self.storage().subrange(
            0,
            self.first_index(),
        )
    }

    /// The fixed length of the buffer.
    pub fn len(&self) -> (r: usize)
        requires
            self.wf(),
        ensures
            r == self.storage().len(),
            r == self@.len(),
            r > 0,
    {
        self.data.slice().len()
    }

    /// Push the given item onto the back of the queue and return the item at the front of the
    /// queue, ensuring that the length is retained.
    pub fn push(&mut self, item: S::Element) -> (r: S::Element)
        where
            S: SliceMut,
        requires
            old(self).wf(),
        ensures
            final(self).wf(),
            r == old(self)@[0],
            final(self)@ == old(self)@.drop_first().push(item),
            final(self).storage() == old(self).storage().update(old(self).first_index(), item),
            final(self).first_index() == (old(self).first_index() + 1) % old(self).storage().len() as int,
    {
        let len = self.len();
        let mut next_index = self.first + 1;
        if next_index == len {
            next_index = 0;
        }
        let old_item = replace_at(self.data.slice_mut(), self.first, item);
        self.first = next_index;
        proof {
            let n = len as int;
            if old(self).first + 1 == n {
                vstd::arithmetic::div_mod::lemma_mod_self_0(n);
            } else {
                vstd::arithmetic::div_mod::lemma_small_mod((old(self).first + 1) as nat, n as nat);
            }
        }
        assert(self@ =~= old(self)@.drop_first().push(item));
        old_item
    }

    /// Borrows the item at the given index.
    ///
    /// If `index` is out of range it will be looped around the length of the data slice.
    pub fn get(&self, index: usize) -> (r: &S::Element)
        requires
            self.wf(),
            self.first_index() + index <= usize::MAX,
        ensures
            *r == self@[index as int % self@.len() as int],
    {
        let wrapped_index = (self.first + index) % self.len();
        proof {
            self.lemma_rotated_index(index as int);
        }
        &self.data.slice()[wrapped_index]
    }

    /// Mutably borrows the item at the given index.
    ///
    /// If `index` is out of range it will be looped around the length of the data slice.
    pub fn get_mut(&mut self, index: usize) -> (r: &mut S::Element)
        where
            S: SliceMut,
        requires
            old(self).wf(),
            old(self).first_index() + index <= usize::MAX,
        ensures
            *r == old(self)@[index as int % old(self)@.len() as int],
            final(self).wf(),
            final(self).first_index() == old(self).first_index(),
            final(self).storage() == old(self).storage().update(
                (old(self).first_index() + index) % old(self).storage().len() as int,
                *final(r),
            ),
    {
        let wrapped_index = (self.first + index) % self.len();
        proof {
            self.lemma_rotated_index(index as int);
        }
        let (_, back) = self.data.slice_mut().split_at_mut(wrapped_index);
        back.first_mut().unwrap()
    }

    /// Sets the index of the first element within the data slice.
    ///
    /// If `index` is out of range it will be looped around the length of the data slice.
    pub fn set_first(&mut self, index: usize)
        requires
            old(self).wf(),
        ensures
            final(self).wf(),
            final(self).storage() == old(self).storage(),
            final(self).first_index() == index as int % old(self).storage().len() as int,
    {
        self.first = index % self.len();
    }

    /// The start and end slices that make up the ring buffer.
    ///
    /// These two slices chained together represent all elements within the buffer in order.
    pub fn slices(&self) -> (r: (&[S::Element], &[S::Element]))
        requires
            self.wf(),
        ensures
            r.0@ == self.storage().subrange(self.first_index(), self.storage().len() as int),
            r.1@ == self.storage().subrange(0, self.first_index()),
            r.0@ + r.1@ == self@,
    {
        let (end, start) = self.data.slice().split_at(self.first);
        (start, end)
    }

    /// The same as the `slices` method, but returns mutable slices instead.
    pub fn slices_mut(&mut self) -> (r: (&mut [S::Element], &mut [S::Element]))
        where
            S: SliceMut,
        requires
            old(self).wf(),
        ensures
            r.0@ == old(self).storage().subrange(
                old(self).first_index(),
                old(self).storage().len() as int,
            ),
            r.1@ == old(self).storage().subrange(0, old(self).first_index()),
            final(self).first_index() == old(self).first_index(),
            final(self).storage() == final(r.1)@ + final(r.0)@,
    {
        let (end, start) = self.data.slice_mut().split_at_mut(self.first);
        (start, end)
    }

    /// Mutable references to the elements of the buffer, from front to back.
    pub fn iter_mut(&mut self) -> (r: IterMut<'_, S::Element>)
        where
            S: SliceMut,
        requires
            old(self).wf(),
        ensures
            r.front@ + r.back@ == old(self)@,
            r.front@ == old(self).storage().subrange(
                old(self).first_index(),
                old(self).storage().len() as int,
            ),
            r.back@ == old(self).storage().subrange(0, old(self).first_index()),
            final(self).first_index() == old(self).first_index(),
            final(self).storage() == final(r.back)@ + final(r.front)@,
    {
        let (front, back) = self.slices_mut();
        IterMut { front, back }
    }

    /// An iterator that cycles over the buffer forever, starting at the front.
    pub fn iter_loop(&self) -> (r: IterLoop<'_, S::Element>)
        requires
            self.wf(),
        ensures
            r.wf(),
            r.items() == self.storage(),
            r.position() == self.first_index(),
    {
        IterLoop { items: self.data.slice(), index: self.first }
    }

    /// References to the elements of the buffer, from front to back.
    pub fn iter(&self) -> (r: Vec<&S::Element>)
        requires
            self.wf(),
        ensures
            r@.len() == self@.len(),
            forall|i: int| 0 <= i < r@.len() ==> *#[trigger] r@[i] == self@[i],
    {
        let (start, end) = self.slices();
        chain_refs(start, end)
    }

    /// Creates a `Fixed` ring buffer from its starting index and data buffer type.
    ///
    /// `first` must lie within the given data slice.
    pub fn from_raw_parts(first: usize, data: S) -> (r: Self)
        requires
            first < data.slice_view().len(),
        ensures
            r.wf(),
            r.first_index() == first,
            r.storage() == data.slice_view(),
    {
        Fixed { first, data }
    }

    /// Consumes the `Fixed` ring buffer and returns its parts: the index of the first element of
    /// the buffer, and the buffer data.
    pub fn into_raw_parts(self) -> (r: (usize, S))
        ensures
            r.0 == self.first_index(),
            r.1.slice_view() == self.storage(),
    {
        let Fixed { first, data } = self;
        (first, data)
    }

    /// Construct a `Fixed` ring buffer from the given, non-empty, data slice.
    pub fn from(data: S) -> (r: Self)
        requires
            data.slice_view().len() > 0,
        ensures
            r.wf(),
            r@ == data.slice_view(),
            r.storage() == data.slice_view(),
            r.first_index() == 0,
    {
        let r = Self::from_raw_parts(0, data);
        assert(r@ =~= data.slice_view());
        r
    }

    /// The element at logical index `i` sits at storage index `(first + i) % len`.
    proof fn lemma_rotated_index(&self, i: int)
        requires
            self.wf(),
            i >= 0,
        ensures
            self@.len() == self.storage().len(),
            self@[i % self@.len() as int] == self.storage()[(self.first_index() + i) % self.storage().len() as int],
    {
        let n = self.storage().len() as int;
        let f = self.first_index();
        let j = i % n;
        vstd::arithmetic::div_mod::lemma_add_mod_noop(f, i, n);
        vstd::arithmetic::div_mod::lemma_small_mod(f as nat, n as nat);
        if f + j < n {
            vstd::arithmetic::div_mod::lemma_small_mod((f + j) as nat, n as nat);
        } else {
            vstd::arithmetic::div_mod::lemma_fundamental_div_mod_converse(f + j, n, 1, f + j - n);
        }
    }
}

/// An iterator that cycles over the elements of a `Fixed` ring buffer forever.
pub struct IterLoop<'a, T> {
    items: &'a [T],
    index: usize,
}

impl<'a, T> IterLoop<'a, T> {
    /// The elements cycled over, in storage order.
    pub closed spec fn items(&self) -> Seq<T> {
        self.items@
    }

    /// The storage index of the next element to be yielded.
    pub closed spec fn position(&self) -> int {
        self.index as int
    }

    /// The next index lies within the elements, unless there are none.
    pub closed spec fn wf(&self) -> bool {
        self.index < self.items@.len() || (self.items@.len() == 0 && self.index == 0)
    }

    /// Yields the next element and moves along, wrapping to the first after the last. Yields
    /// `None` only where there are no elements.
    pub fn next(&mut self) -> (r: Option<&'a T>)
        requires
            old(self).wf(),
        ensures
            final(self).wf(),
            final(self).items() == old(self).items(),
            old(self).items().len() == 0 ==> r is None && final(self).position() == old(self).position(),
            old(self).items().len() > 0 ==> {
                &&& r is Some
                &&& *r->0 == old(self).items()[old(self).position()]
                &&& final(self).position() == (old(self).position() + 1) % (old(self).items().len() as int)
            },
    {
        if self.items.len() == 0 {
            return None;
        }
        let item = &self.items[self.index];
        if self.index + 1 == self.items.len() {
            proof {
                vstd::arithmetic::div_mod::lemma_mod_self_0(self.items@.len() as int);
            }
            self.index = 0;
        } else {
            proof {
                vstd::arithmetic::div_mod::lemma_small_mod(
                    (self.index + 1) as nat,
                    self.items@.len() as nat,
                );
            }
            self.index = self.index + 1;
        }
        Some(item)
    }
}

} // verus!

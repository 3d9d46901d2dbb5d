//! Items related to the implementation of ring buffers.
//!
//! - The `Slice` and `SliceMut` traits, implemented for types that may be used as the underlying
//!   buffer of `Fixed` and `Bounded` ring buffers.
//! - The `Fixed` ring buffer type.
//! - The `Bounded` ring buffer type.

mod bounded;
mod fixed;

pub use self::bounded::Bounded;
pub use self::fixed::{Fixed, IterLoop};

use vstd::prelude::*;

verus! {

/// Types that may be used as a data slice for `Fixed` and `Bounded` ring buffers.
pub trait Slice {
    /// The type contained within the slice.
    type Element;

    /// The elements of the data slice.
    spec fn slice_view(&self) -> Seq<Self::Element>;

    /// Borrow the data slice.
    fn slice(&self) -> (r: &[Self::Element])
        ensures
            r@ == self.slice_view(),
    ;
}

/// Types that may be used as a data slice for mutable `Fixed` and `Bounded` ring buffers.
pub trait SliceMut: Slice {
    /// Mutably borrow the data slice.
    fn slice_mut(&mut self) -> (r: &mut [Self::Element])
        ensures
            r@ == old(self).slice_view(),
            final(self).slice_view() == final(r)@,
    ;
}

impl<'a, T> Slice for &'a [T] {
    type Element = T;

    open spec fn slice_view(&self) -> Seq<T> {
        (**self)@
    }

    fn slice(&self) -> (r: &[T]) {
        *self
    }
}

impl<'a, T> Slice for &'a mut [T] {
    type Element = T;

    open spec fn slice_view(&self) -> Seq<T> {
        (**self)@
    }

    fn slice(&self) -> (r: &[T]) {
        &**self
    }
}

impl<'a, T> SliceMut for &'a mut [T] {
    fn slice_mut(&mut self) -> (r: &mut [T]) {
        &mut **self
    }
}

impl<T> Slice for Box<[T]> {
    type Element = T;

    open spec fn slice_view(&self) -> Seq<T> {
        (**self)@
    }

    fn slice(&self) -> (r: &[T]) {
        &**self
    }
}

impl<T> SliceMut for Box<[T]> {
    fn slice_mut(&mut self) -> (r: &mut [T]) {
        &mut **self
    }
}

impl<T> Slice for Vec<T> {
    type Element = T;

    open spec fn slice_view(&self) -> Seq<T> {
        self@
    }

    fn slice(&self) -> (r: &[T]) {
        self.as_slice()
    }
}

impl<T> SliceMut for Vec<T> {
    fn slice_mut(&mut self) -> (r: &mut [T]) {
        self.as_mut_slice()
    }
}

impl<T, const N: usize> Slice for [T; N] {
    type Element = T;

    open spec fn slice_view(&self) -> Seq<T> {
        self@
    }

    fn slice(&self) -> (r: &[T]) {
        self.as_slice()
    }
}

impl<T, const N: usize> SliceMut for [T; N] {
    fn slice_mut(&mut self) -> (r: &mut [T]) {
        self
    }
}

/// Mutable references to the elements of a ring buffer from front to back: first those of
/// `front`, then those of `back`.
///
/// What is written through a yielded reference is written to the ring buffer.
pub struct IterMut<'a, T> {
    /// The elements not yet yielded that lie before the end of the buffer's storage.
    pub front: &'a mut [T],
    /// The elements not yet yielded that lie at the start of the buffer's storage.
    pub back: &'a mut [T],
}

/// Takes the first element out of the slice in `slot`, leaving the rest there.
fn take_first_mut<'a, T>(slot: &mut &'a mut [T]) -> (r: Option<&'a mut T>)
    ensures
        old(slot)@.len() == 0 ==> {
            &&& r is None
            &&& final(slot)@ == old(slot)@
            &&& final(*old(slot))@ == final(*final(slot))@
        },
        old(slot)@.len() > 0 ==> {
            &&& r is Some
            &&& *r->0 == old(slot)@[0]
            &&& final(slot)@ == old(slot)@.drop_first()
            &&& final(*old(slot))@ == seq![*final(r->0)] + final(*final(slot))@
        },
{
    let mut taken: &'a mut [T] = &mut [];
    core::mem::swap(&mut taken, slot);
    if taken.len() == 0 {
        *slot = taken;
        return None;
    }
    let (first, rest) = taken.split_at_mut(1);
    *slot = rest;
    first.first_mut()
}

impl<'a, T> IterMut<'a, T> {
    /// Yields a mutable reference to the next element, or `None` once every element has been
    /// yielded.
    pub fn next(&mut self) -> (r: Option<&'a mut T>)
        ensures
            old(self).front@.len() > 0 ==> {
                &&& r is Some
                &&& *r->0 == old(self).front@[0]
                &&& final(self).front@ == old(self).front@.drop_first()
                &&& final(old(self).front)@ == seq![*final(r->0)] + final(final(self).front)@
                &&& final(self).back == old(self).back
            },
            old(self).front@.len() == 0 && old(self).back@.len() > 0 ==> {
                &&& r is Some
                &&& *r->0 == old(self).back@[0]
                &&& final(self).front == old(self).front
                &&& final(self).back@ == old(self).back@.drop_first()
                &&& final(old(self).back)@ == seq![*final(r->0)] + final(final(self).back)@
            },
            old(self).front@.len() == 0 && old(self).back@.len() == 0 ==> {
                &&& r is None
                &&& final(self).front == old(self).front
                &&& final(self).back@ == old(self).back@
                &&& final(old(self).back)@ == final(final(self).back)@
            },
    {
        if self.front.len() > 0 {
            take_first_mut(&mut self.front)
        } else {
            take_first_mut(&mut self.back)
        }
    }
}

/// Replaces the element at `index` with `item`, returning the element that was there.
pub(crate) fn replace_at<T>(slice: &mut [T], index: usize, item: T) -> (r: T)
    requires
        index < old(slice)@.len(),
    ensures
        r == old(slice)@[index as int],
        final(slice)@ == old(slice)@.update(index as int, item),
{
    let mut item = item;
    let (front, back) = slice.split_at_mut(index);
    let slot = back.first_mut().unwrap();
    core::mem::swap(slot, &mut item);
    item
}

/// References to the elements of `a` followed by those of `b`.
pub(crate) fn chain_refs<'a, T>(a: &'a [T], b: &'a [T]) -> (r: Vec<&'a T>)
    ensures
        r@.len() == a@.len() + b@.len(),
        forall|i: int| 0 <= i < r@.len() ==> *#[trigger] r@[i] == (a@ + b@)[i],
{
    let mut r: Vec<&'a T> = Vec::new();
    let mut i: usize = 0;
    while i < a.len()
        invariant
            i <= a@.len(),
            r@.len() == i,
            forall|j: int| 0 <= j < i ==> *#[trigger] r@[j] == a@[j],
        decreases a@.len() - i,
    {
        r.push(&a[i]);
        i = i + 1;
    }
    let mut k: usize = 0;
    while k < b.len()
        invariant
            k <= b@.len(),
            r@.len() == a@.len() + k,
            forall|j: int| 0 <= j < a@.len() ==> *#[trigger] r@[j] == a@[j],
            forall|j: int| a@.len() <= j < a@.len() + k ==> *#[trigger] r@[j] == b@[j - a@.len()],
        decreases b@.len() - k,
    {
        r.push(&b[k]);
        k = k + 1;
    }
    r
}

/// Types that may be used as a constant-length buffer underlying a `Bounded` ring buffer.
pub trait FixedSizeArray {
    /// The constant length.
    const LEN: usize;
}

impl<T, const N: usize> FixedSizeArray for [T; N] {
    const LEN: usize = N;
}

} // verus!

//! The fixed-size vector type `vec<T, N>`.
//!
//! A `vec<T, N>` owns exactly `N` contiguous elements of type `T`.  Its
//! length is fixed at construction and never changes.  The elements are
//! held in a `Vec<T>` whose length equals `N`; [`vec::wf`] states that
//! invariant, every constructor establishes it and every operation
//! preserves it.

use vstd::prelude::*;
use vstd::array::array_index_get;

verus! {

/// The fixed-size vector.
///
/// Not camel-case `Vec` to show it is among the basic types.
#[allow(non_camel_case_types)]
#[derive(Debug, Clone)]
pub struct vec<T, const N: usize> {
    elems: Vec<T>,
}

impl<T, const N: usize> View for vec<T, N> {
    type V = Seq<T>;

    closed spec fn view(&self) -> Seq<T> {
        self.elems@
    }
}

impl<T, const N: usize> vec<T, N> {
    /// Exactly `N` elements are held.
    pub open spec fn wf(&self) -> bool {
        self@.len() == N as int
    }

    /// Wraps `elems` as a fixed-size vector; for use inside the crate by
    /// operations that have already built the full element list.
    pub(crate) fn from_raw(elems: Vec<T>) -> (r: Self)
        requires
            elems@.len() == N as int,
        ensures
            r.wf(),
            r@ == elems@,
    {
        vec { elems }
    }

    /// Consumes the vector and returns its elements, in order.
    pub fn into_array(self) -> (r: Vec<T>)
        ensures
            r@ == self@,
    {
        self.elems
    }

    /// Borrows the elements.
    pub fn as_array(&self) -> (r: &Vec<T>)
        ensures
            r@ == self@,
    {
        &self.elems
    }

    /// Mutably borrows the elements.  Writing a different number of
    /// elements through the borrow leaves the vector without its
    /// well-formedness, so callers are expected to keep the length.
    pub fn as_array_mut(&mut self) -> (r: &mut Vec<T>)
        ensures
            r@ == old(self)@,
            final(self)@ == final(r)@,
    {
        &mut self.elems
    }

    /// A reference to element `i`.
    pub fn index(&self, i: usize) -> (r: &T)
        requires
            self.wf(),
            i < N,
        ensures
            *r == self@[i as int],
    {
        &self.elems[i]
    }

    /// A mutable reference to element `i`; writing through it replaces
    /// exactly that element.
    pub fn index_mut(&mut self, i: usize) -> (r: &mut T)
        requires
            old(self).wf(),
            i < N,
        ensures
            *r == old(self)@[i as int],
            final(self)@ == old(self)@.update(i as int, *final(r)),
    {
        &mut self.elems[i]
    }
}

impl<T: Copy, const N: usize> vec<T, N> {
    /// Creates a new vec from an array.
    pub fn from_array(array: [T; N]) -> (r: Self)
        ensures
            r.wf(),
            r@ == array@,
    {
        let mut elems: Vec<T> = Vec::new();
        let mut i: usize = 0;
        while i < N
            invariant
                i <= N,
                elems@ =~= array@.take(i as int),
            decreases N - i,
        {
            elems.push(*array_index_get(&array, i));
            i += 1;
        }
        proof {
            assert(elems@ =~= array@);
        }
        vec { elems }
    }

    /// Creates a new vec with every one of its `N` slots filled with
    /// `value`.
    pub fn single(value: T) -> (r: Self)
        ensures
            r.wf(),
            forall|i: int| 0 <= i < N as int ==> r@[i] == value,
    {
        let mut elems: Vec<T> = Vec::new();
        let mut i: usize = 0;
        while i < N
            invariant
                i <= N,
                elems@.len() == i as int,
                forall|j: int| 0 <= j < i as int ==> elems@[j] == value,
            decreases N - i,
        {
            elems.push(value);
            i += 1;
        }
        vec { elems }
    }
}

} // verus!

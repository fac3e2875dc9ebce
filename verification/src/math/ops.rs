//! Elementwise operations for `vec`.
//!
//! One generic map/zip/fold utility family (`apply_*` producing a new
//! vector, `modify_*` working in place, `apply_*_bool` reducing with a
//! short-circuiting logical AND) carries every concrete operator: the
//! arithmetic methods and the equality below are thin instantiations of
//! these combinators with the corresponding primitive operation.

use vstd::prelude::*;
use vstd::std_specs::cmp::PartialEqSpec;

verus! {

impl<T: Copy, const N: usize> crate::math::vec::vec<T, N> {
    /// Applies `op` to elements from `self` and elements from `rhs`,
    /// constructs a new `vec` and returns it.
    pub fn apply_binary<U: Copy, R, F: Fn(T, U) -> R>(&self, rhs: &crate::math::vec::vec<U, N>, op: F)
        -> (r: crate::math::vec::vec<R, N>)
        requires
            self.wf(),
            rhs.wf(),
            forall|i: int| 0 <= i < N as int ==> call_requires(op, (self@[i], rhs@[i])),
        ensures
            r.wf(),
            forall|i: int| 0 <= i < N as int
                ==> call_ensures(op, (self@[i], rhs@[i]), #[trigger] r@[i]),
    {
        let mut elems: Vec<R> = Vec::new();
        let mut i: usize = 0;
        while i < N
            invariant
                i <= N,
                self.wf(),
                rhs.wf(),
                forall|k: int| 0 <= k < N as int ==> call_requires(op, (self@[k], rhs@[k])),
                elems@.len() == i as int,
                forall|k: int| 0 <= k < i as int
                    ==> call_ensures(op, (self@[k], rhs@[k]), #[trigger] elems@[k]),
            decreases N - i,
        {
            let v = op(*self.index(i), *rhs.index(i));
            elems.push(v);
            i += 1;
        }
        crate::math::vec::vec::<R, N>::from_raw(elems)
    }

    /// Applies `op` to elements from `self` and the single operand `rhs`,
    /// constructs a new `vec` and returns it.
    pub fn apply_binary_single<U: Copy, R, F: Fn(T, U) -> R>(&self, rhs: U, op: F)
        -> (r: crate::math::vec::vec<R, N>)
        requires
            self.wf(),
            forall|i: int| 0 <= i < N as int ==> call_requires(op, (self@[i], rhs)),
        ensures
            r.wf(),
            forall|i: int| 0 <= i < N as int
                ==> call_ensures(op, (self@[i], rhs), #[trigger] r@[i]),
    {
        let mut elems: Vec<R> = Vec::new();
        let mut i: usize = 0;
        while i < N
            invariant
                i <= N,
                self.wf(),
                forall|k: int| 0 <= k < N as int ==> call_requires(op, (self@[k], rhs)),
                elems@.len() == i as int,
                forall|k: int| 0 <= k < i as int
                    ==> call_ensures(op, (self@[k], rhs), #[trigger] elems@[k]),
            decreases N - i,
        {
            let v = op(*self.index(i), rhs);
            elems.push(v);
            i += 1;
        }
        crate::math::vec::vec::<R, N>::from_raw(elems)
    }

    /// Applies `op` to every element and returns the transformed `vec`.
    pub fn apply_unary<R, F: Fn(T) -> R>(&self, op: F) -> (r: crate::math::vec::vec<R, N>)
        requires
            self.wf(),
            forall|i: int| 0 <= i < N as int ==> call_requires(op, (self@[i],)),
        ensures
            r.wf(),
            forall|i: int| 0 <= i < N as int
                ==> call_ensures(op, (self@[i],), #[trigger] r@[i]),
    {
        let mut elems: Vec<R> = Vec::new();
        let mut i: usize = 0;
        while i < N
            invariant
                i <= N,
                self.wf(),
                forall|k: int| 0 <= k < N as int ==> call_requires(op, (self@[k],)),
                elems@.len() == i as int,
                forall|k: int| 0 <= k < i as int
                    ==> call_ensures(op, (self@[k],), #[trigger] elems@[k]),
            decreases N - i,
        {
            let v = op(*self.index(i));
            elems.push(v);
            i += 1;
        }
        crate::math::vec::vec::<R, N>::from_raw(elems)
    }

    /// Replaces every element of `self` with `op` applied to it and the
    /// corresponding element of `rhs`.
    pub fn modify_binary<U: Copy, F: Fn(T, U) -> T>(&mut self, rhs: &crate::math::vec::vec<U, N>, op: F)
        requires
            old(self).wf(),
            rhs.wf(),
            forall|i: int| 0 <= i < N as int ==> call_requires(op, (old(self)@[i], rhs@[i])),
        ensures
            final(self).wf(),
            forall|i: int| 0 <= i < N as int
                ==> call_ensures(op, (old(self)@[i], rhs@[i]), #[trigger] final(self)@[i]),
    {
        let mut i: usize = 0;
        while i < N
            invariant
                i <= N,
                self@.len() == N as int,
                rhs.wf(),
                forall|k: int| 0 <= k < N as int
                    ==> call_requires(op, (old(self)@[k], rhs@[k])),
                forall|k: int| i as int <= k < N as int ==> self@[k] == old(self)@[k],
                forall|k: int| 0 <= k < i as int
                    ==> call_ensures(op, (old(self)@[k], rhs@[k]), #[trigger] self@[k]),
            decreases N - i,
        {
            let v = op(*self.index(i), *rhs.index(i));
            *self.index_mut(i) = v;
            i += 1;
        }
    }

    /// Replaces every element of `self` with `op` applied to it and `rhs`.
    pub fn modify_binary_single<U: Copy, F: Fn(T, U) -> T>(&mut self, rhs: U, op: F)
        requires
            old(self).wf(),
            forall|i: int| 0 <= i < N as int ==> call_requires(op, (old(self)@[i], rhs)),
        ensures
            final(self).wf(),
            forall|i: int| 0 <= i < N as int
                ==> call_ensures(op, (old(self)@[i], rhs), #[trigger] final(self)@[i]),
    {
        let mut i: usize = 0;
        while i < N
            invariant
                i <= N,
                self@.len() == N as int,
                forall|k: int| 0 <= k < N as int ==> call_requires(op, (old(self)@[k], rhs)),
                forall|k: int| i as int <= k < N as int ==> self@[k] == old(self)@[k],
                forall|k: int| 0 <= k < i as int
                    ==> call_ensures(op, (old(self)@[k], rhs), #[trigger] self@[k]),
            decreases N - i,
        {
            let v = op(*self.index(i), rhs);
            *self.index_mut(i) = v;
            i += 1;
        }
    }

    /// Replaces every element of `self` with `op` applied to it.
    pub fn modify_unary<F: Fn(T) -> T>(&mut self, op: F)
        requires
            old(self).wf(),
            forall|i: int| 0 <= i < N as int ==> call_requires(op, (old(self)@[i],)),
        ensures
            final(self).wf(),
            forall|i: int| 0 <= i < N as int
                ==> call_ensures(op, (old(self)@[i],), #[trigger] final(self)@[i]),
    {
        let mut i: usize = 0;
        while i < N
            invariant
                i <= N,
                self@.len() == N as int,
                forall|k: int| 0 <= k < N as int ==> call_requires(op, (old(self)@[k],)),
                forall|k: int| i as int <= k < N as int ==> self@[k] == old(self)@[k],
                forall|k: int| 0 <= k < i as int
                    ==> call_ensures(op, (old(self)@[k],), #[trigger] self@[k]),
            decreases N - i,
        {
            let v = op(*self.index(i));
            *self.index_mut(i) = v;
            i += 1;
        }
    }

    /// Applies the predicate `op` to corresponding elements of `self` and
    /// `rhs` and returns true exactly when every application returned
    /// true, stopping at the first false.
    pub fn apply_binary_bool<U: Copy, F: Fn(T, U) -> bool>(&self, rhs: &crate::math::vec::vec<U, N>, op: F)
        -> (b: bool)
        requires
            self@.len() == rhs@.len(),
            forall|i: int| 0 <= i < self@.len() ==> call_requires(op, (self@[i], rhs@[i])),
        ensures
            b ==> forall|i: int| 0 <= i < self@.len()
                ==> #[trigger] call_ensures(op, (self@[i], rhs@[i]), true),
            !b ==> exists|i: int| 0 <= i < self@.len()
                && #[trigger] call_ensures(op, (self@[i], rhs@[i]), false),
    {
        let a = self.as_array();
        let c = rhs.as_array();
        let mut i: usize = 0;
        while i < a.len()
            invariant
                a@ == self@,
                c@ == rhs@,
                self@.len() == rhs@.len(),
                i <= self@.len(),
                forall|k: int| 0 <= k < self@.len()
                    ==> call_requires(op, (self@[k], rhs@[k])),
                forall|k: int| 0 <= k < i as int
                    ==> #[trigger] call_ensures(op, (self@[k], rhs@[k]), true),
            decreases a@.len() - i,
        {
            if !op(a[i], c[i]) {
                return false;
            }
            i += 1;
        }
        true
    }

    /// Applies the predicate `op` to every element of `self` and returns
    /// true exactly when every application returned true, stopping at the
    /// first false.
    pub fn apply_unary_bool<F: Fn(T) -> bool>(&self, op: F) -> (b: bool)
        requires
            forall|i: int| 0 <= i < self@.len() ==> call_requires(op, (self@[i],)),
        ensures
            b ==> forall|i: int| 0 <= i < self@.len()
                ==> #[trigger] call_ensures(op, (self@[i],), true),
            !b ==> exists|i: int| 0 <= i < self@.len()
                && #[trigger] call_ensures(op, (self@[i],), false),
    {
        let a = self.as_array();
        let mut i: usize = 0;
        while i < a.len()
            invariant
                a@ == self@,
                i <= self@.len(),
                forall|k: int| 0 <= k < self@.len() ==> call_requires(op, (self@[k],)),
                forall|k: int| 0 <= k < i as int
                    ==> #[trigger] call_ensures(op, (self@[k],), true),
            decreases a@.len() - i,
        {
            if !op(a[i]) {
                return false;
            }
            i += 1;
        }
        true
    }
}

impl<const N: usize> crate::math::vec::vec<i64, N> {
    /// Elementwise addition: slot `i` of the result is `self[i] + rhs[i]`.
    pub fn add(&self, rhs: &crate::math::vec::vec<i64, N>) -> (r: crate::math::vec::vec<i64, N>)
        requires
            self.wf(),
            rhs.wf(),
            forall|i: int| #![trigger self@[i]] 0 <= i < N as int
                ==> i64::MIN <= self@[i] + rhs@[i] <= i64::MAX,
        ensures
            r.wf(),
            forall|i: int| 0 <= i < N as int ==> #[trigger] r@[i] == self@[i] + rhs@[i],
    {
        let op = |x: i64, y: i64| -> (z: i64)
            requires
                i64::MIN <= x + y <= i64::MAX,
            ensures
                z == x + y,
            { x + y };
        let r = self.apply_binary(rhs, op);
        proof {
            assert forall|i: int| 0 <= i < N as int
                implies #[trigger] r@[i] == self@[i] + rhs@[i] by {
                assert(call_ensures(op, (self@[i], rhs@[i]), r@[i]));
            }
        }
        r
    }

    /// Elementwise subtraction: slot `i` of the result is `self[i] - rhs[i]`.
    pub fn sub(&self, rhs: &crate::math::vec::vec<i64, N>) -> (r: crate::math::vec::vec<i64, N>)
        requires
            self.wf(),
            rhs.wf(),
            forall|i: int| #![trigger self@[i]] 0 <= i < N as int
                ==> i64::MIN <= self@[i] - rhs@[i] <= i64::MAX,
        ensures
            r.wf(),
            forall|i: int| 0 <= i < N as int ==> #[trigger] r@[i] == self@[i] - rhs@[i],
    {
        let op = |x: i64, y: i64| -> (z: i64)
            requires
                i64::MIN <= x - y <= i64::MAX,
            ensures
                z == x - y,
            { x - y };
        let r = self.apply_binary(rhs, op);
        proof {
            assert forall|i: int| 0 <= i < N as int
                implies #[trigger] r@[i] == self@[i] - rhs@[i] by {
                assert(call_ensures(op, (self@[i], rhs@[i]), r@[i]));
            }
        }
        r
    }

    /// Elementwise multiplication: slot `i` of the result is
    /// `self[i] * rhs[i]`.
    pub fn mul(&self, rhs: &crate::math::vec::vec<i64, N>) -> (r: crate::math::vec::vec<i64, N>)
        requires
            self.wf(),
            rhs.wf(),
            forall|i: int| #![trigger self@[i]] 0 <= i < N as int
                ==> i64::MIN <= self@[i] * rhs@[i] <= i64::MAX,
        ensures
            r.wf(),
            forall|i: int| 0 <= i < N as int ==> #[trigger] r@[i] == self@[i] * rhs@[i],
    {
        let op = |x: i64, y: i64| -> (z: i64)
            requires
                i64::MIN <= x * y <= i64::MAX,
            ensures
                z == x * y,
            { x * y };
        let r = self.apply_binary(rhs, op);
        proof {
            assert forall|i: int| 0 <= i < N as int
                implies #[trigger] r@[i] == self@[i] * rhs@[i] by {
                assert(call_ensures(op, (self@[i], rhs@[i]), r@[i]));
            }
        }
        r
    }

    /// Elementwise negation: slot `i` of the result is `-self[i]`.
    pub fn neg(&self) -> (r: crate::math::vec::vec<i64, N>)
        requires
            self.wf(),
            forall|i: int| 0 <= i < N as int ==> self@[i] != i64::MIN,
        ensures
            r.wf(),
            forall|i: int| 0 <= i < N as int ==> #[trigger] r@[i] == -self@[i],
    {
        let op = |x: i64| -> (z: i64)
            requires
                x != i64::MIN,
            ensures
                z == -x,
            { -x };
        let r = self.apply_unary(op);
        proof {
            assert forall|i: int| 0 <= i < N as int
                implies #[trigger] r@[i] == -self@[i] by {
                assert(call_ensures(op, (self@[i],), r@[i]));
            }
        }
        r
    }

    /// Elementwise in-place addition: slot `i` becomes `self[i] + rhs[i]`.
    pub fn add_assign(&mut self, rhs: &crate::math::vec::vec<i64, N>)
        requires
            old(self).wf(),
            rhs.wf(),
            forall|i: int| #![trigger old(self)@[i]] 0 <= i < N as int
                ==> i64::MIN <= old(self)@[i] + rhs@[i] <= i64::MAX,
        ensures
            final(self).wf(),
            forall|i: int| 0 <= i < N as int
                ==> #[trigger] final(self)@[i] == old(self)@[i] + rhs@[i],
    {
        let op = |x: i64, y: i64| -> (z: i64)
            requires
                i64::MIN <= x + y <= i64::MAX,
            ensures
                z == x + y,
            { x + y };
        self.modify_binary(rhs, op);
        proof {
            assert forall|i: int| 0 <= i < N as int
                implies #[trigger] final(self)@[i] == old(self)@[i] + rhs@[i] by {
                assert(call_ensures(op, (old(self)@[i], rhs@[i]), final(self)@[i]));
            }
        }
    }
}

impl<const N: usize> crate::math::vec::vec<bool, N> {
    /// Elementwise logical negation.
    pub fn not(&self) -> (r: crate::math::vec::vec<bool, N>)
        requires
            self.wf(),
        ensures
            r.wf(),
            forall|i: int| 0 <= i < N as int ==> #[trigger] r@[i] == !self@[i],
    {
        let op = |x: bool| -> (z: bool)
            ensures
                z == !x,
            { !x };
        let r = self.apply_unary(op);
        proof {
            assert forall|i: int| 0 <= i < N as int
                implies #[trigger] r@[i] == !self@[i] by {
                assert(call_ensures(op, (self@[i],), r@[i]));
            }
        }
        r
    }
}

impl<const N: usize> Default for crate::math::vec::vec<i64, N> {
    /// A vector with every slot holding the element default, zero.
    fn default() -> (r: Self)
        ensures
            r.wf(),
            forall|i: int| 0 <= i < N as int ==> #[trigger] r@[i] == 0i64,
    {
        crate::math::vec::vec::single(0)
    }
}

impl<const N: usize> PartialEq for crate::math::vec::vec<i64, N> {
    /// Elementwise equality through the boolean reducer: two vectors are
    /// equal exactly when their element sequences are equal.
    fn eq(&self, other: &Self) -> (r: bool) {
        let a = self.as_array();
        let b = other.as_array();
        if a.len() != b.len() {
            return false;
        }
        let op = |x: i64, y: i64| -> (z: bool)
            ensures
                z == (x == y),
            { x == y };
        let r = self.apply_binary_bool(other, op);
        proof {
            if r {
                assert forall|i: int| 0 <= i < self@.len()
                    implies self@[i] == other@[i] by {
                    assert(call_ensures(op, (self@[i], other@[i]), true));
                }
                assert(self@ =~= other@);
            } else {
                let i = choose|i: int| 0 <= i < self@.len()
                    && #[trigger] call_ensures(op, (self@[i], other@[i]), false);
                assert(self@[i] != other@[i]);
            }
        }
        r
    }
}

impl<const N: usize> vstd::std_specs::cmp::PartialEqSpecImpl for crate::math::vec::vec<i64, N> {
    open spec fn obeys_eq_spec() -> bool {
        true
    }

    open spec fn eq_spec(&self, other: &Self) -> bool {
        self@ == other@
    }
}

/// Law: vector equality is reflexive, and two vectors are equal exactly
/// when their element sequences have the same length and agree at every
/// index.
pub proof fn lemma_vec_eq_laws<const N: usize>(a: &crate::math::vec::vec<i64, N>, b: &crate::math::vec::vec<i64, N>)
    ensures
        a.eq_spec(a),
        a.eq_spec(b) <==> (a@.len() == b@.len()
            && forall|i: int| 0 <= i < a@.len() ==> a@[i] == b@[i]),
{
    if a@.len() == b@.len() && forall|i: int| 0 <= i < a@.len() ==> a@[i] == b@[i] {
        assert(a@ =~= b@);
    }
}

} // verus!

//! The variadic `Piece`-based constructor for `vec`.
//!
//! A [`Piece`] is any value that can embed itself into one or more
//! contiguous slots of a fixed-size vector: a single scalar (one slot), a
//! homogeneous list of pieces (its members written in sequence, all with
//! the same slot count), or a tuple of up to ten heterogeneous pieces
//! (its members written in sequence).  [`New::call`] lays an ordered
//! sequence of pieces out left to right into the slots of a
//! `vec<T, N>`, fills the remaining slots with a given default value,
//! and rejects piece sequences that need more than `N` slots.

use vstd::prelude::*;

verus! {

/// The arity cap for a tuple piece.
pub const TUPLE_ARITY_CAP: usize = 10;

/// A value usable as an argument of the variadic constructor.
#[derive(Debug)]
pub enum Piece<T> {
    /// A single value: occupies exactly one slot.
    Scalar(T),
    /// A homogeneous list of pieces, flattened in order; every member
    /// occupies the same number of slots.
    List(Vec<Piece<T>>),
    /// A tuple of up to [`TUPLE_ARITY_CAP`] pieces, flattened in order.
    Tuple(Vec<Piece<T>>),
}

/// The slots a piece writes, in emission order.
pub open spec fn flat<T>(p: Piece<T>) -> Seq<T>
    decreases p,
{
    match p {
        Piece::Scalar(t) => seq![t],
        Piece::List(ps) => flat_list(ps@),
        Piece::Tuple(ps) => flat_list(ps@),
    }
}

/// The slots a sequence of pieces writes: each piece's slots in turn, in
/// sequence order.
pub open spec fn flat_list<T>(ps: Seq<Piece<T>>) -> Seq<T>
    decreases ps,
{
    if ps.len() == 0 {
        Seq::empty()
    } else {
        flat(ps[0]) + flat_list(ps.drop_first())
    }
}

/// The structural constraints on a piece: a tuple holds at most
/// [`TUPLE_ARITY_CAP`] members, a list's members all occupy the same
/// number of slots, and the members themselves are well-formed.
pub open spec fn piece_wf<T>(p: Piece<T>) -> bool
    decreases p,
{
    match p {
        Piece::Scalar(_) => true,
        Piece::List(ps) => {
            &&& forall|i: int| 0 <= i < ps@.len() ==> piece_wf(#[trigger] ps@[i])
            &&& forall|i: int| 0 <= i < ps@.len()
                ==> flat(#[trigger] ps@[i]).len() == flat(ps@[0]).len()
        },
        Piece::Tuple(ps) => {
            &&& ps@.len() <= TUPLE_ARITY_CAP as int
            &&& forall|i: int| 0 <= i < ps@.len() ==> piece_wf(#[trigger] ps@[i])
        },
    }
}

/// Law: flattening distributes over concatenation of piece sequences.
pub proof fn lemma_flat_list_concat<T>(a: Seq<Piece<T>>, b: Seq<Piece<T>>)
    ensures
        flat_list(a + b) == flat_list(a) + flat_list(b),
    decreases a.len(),
{
    if a.len() == 0 {
        assert(a + b =~= b);
        assert(flat_list(a + b) =~= flat_list(a) + flat_list(b));
    } else {
        lemma_flat_list_concat(a.drop_first(), b);
        assert((a + b)[0] == a[0]);
        assert((a + b).drop_first() =~= a.drop_first() + b);
        assert(flat_list(a + b) =~= flat_list(a) + flat_list(b));
    }
}

/// Law: flattening one more piece appends exactly that piece's slots.
pub proof fn lemma_flat_list_push<T>(s: Seq<Piece<T>>, p: Piece<T>)
    ensures
        flat_list(s.push(p)) == flat_list(s) + flat(p),
{
    lemma_flat_list_concat(s, seq![p]);
    assert(s.push(p) =~= s + seq![p]);
    assert(seq![p][0] == p);
    assert(seq![p].drop_first() =~= Seq::<Piece<T>>::empty());
    assert(flat_list(Seq::<Piece<T>>::empty()) == Seq::<T>::empty());
    assert(flat_list(seq![p]) == flat(p) + flat_list(seq![p].drop_first()));
    assert(flat_list(seq![p]) =~= flat(p));
    assert(flat_list(s.push(p)) =~= flat_list(s) + flat(p));
}

impl<T: Copy> Piece<T> {
    /// A scalar piece: writes `value` into exactly one slot.
    pub fn scalar(value: T) -> (r: Piece<T>)
        ensures
            r == Piece::Scalar(value),
            piece_wf(r),
            flat(r) == seq![value],
    {
        Piece::Scalar(value)
    }

    /// A list piece from well-formed members.  Succeeds exactly when all
    /// members occupy the same number of slots; an uneven list is
    /// rejected at definition time.
    pub fn list(members: Vec<Piece<T>>) -> (r: Result<Piece<T>, NewError>)
        requires
            forall|i: int| 0 <= i < members@.len() ==> piece_wf(#[trigger] members@[i]),
            forall|i: int| 0 <= i < members@.len()
                ==> flat(#[trigger] members@[i]).len() <= usize::MAX as int,
        ensures
            match r {
                Ok(p) => p == Piece::List(members) && piece_wf(p),
                Err(e) => {
                    &&& e == NewError::UnevenList
                    &&& exists|i: int| 0 <= i < members@.len()
                        && flat(#[trigger] members@[i]).len() != flat(members@[0]).len()
                },
            },
    {
        if members.len() == 0 {
            return Ok(Piece::List(members));
        }
        let first = match members[0].slot_count() {
            Some(n) => n,
            None => { return Err(NewError::UnevenList); },
        };
        let mut i: usize = 1;
        while i < members.len()
            invariant
                1 <= i <= members@.len(),
                forall|k: int| 0 <= k < members@.len()
                    ==> flat(#[trigger] members@[k]).len() <= usize::MAX as int,
                first as int == flat(members@[0]).len(),
                forall|k: int| 0 <= k < i as int
                    ==> flat(#[trigger] members@[k]).len() == flat(members@[0]).len(),
            decreases members@.len() - i,
        {
            let n = match members[i].slot_count() {
                Some(n) => n,
                None => { return Err(NewError::UnevenList); },
            };
            if n != first {
                return Err(NewError::UnevenList);
            }
            i += 1;
        }
        Ok(Piece::List(members))
    }

    /// A tuple piece from well-formed members.  Succeeds exactly when at
    /// most [`TUPLE_ARITY_CAP`] members are given.
    pub fn tuple(members: Vec<Piece<T>>) -> (r: Result<Piece<T>, NewError>)
        requires
            forall|i: int| 0 <= i < members@.len() ==> piece_wf(#[trigger] members@[i]),
        ensures
            match r {
                Ok(p) => p == Piece::Tuple(members) && piece_wf(p),
                Err(e) => e == NewError::OversizeTuple
                    && members@.len() > TUPLE_ARITY_CAP as int,
            },
    {
        if members.len() > TUPLE_ARITY_CAP {
            Err(NewError::OversizeTuple)
        } else {
            Ok(Piece::Tuple(members))
        }
    }

    /// A fixed-size vector used as a piece: its elements written in
    /// order, one slot each.
    pub fn of_vec<const N: usize>(v: &crate::math::vec::vec<T, N>) -> (r: Piece<T>)
        requires
            v.wf(),
        ensures
            piece_wf(r),
            flat(r) == v@,
    {
        let mut members: Vec<Piece<T>> = Vec::new();
        let mut i: usize = 0;
        while i < N
            invariant
                i <= N,
                v.wf(),
                members@.len() == i as int,
                forall|k: int| 0 <= k < i as int
                    ==> #[trigger] members@[k] == Piece::Scalar(v@[k]),
            decreases N - i,
        {
            members.push(Piece::Scalar(*v.index(i)));
            i += 1;
        }
        let r = Piece::List(members);
        proof {
            assert forall|k: int| 0 <= k < members@.len()
                implies piece_wf(#[trigger] members@[k])
                    && flat(members@[k]).len() == flat(members@[0]).len() by {
                assert(members@[k] == Piece::Scalar(v@[k]));
                assert(members@[0] == Piece::Scalar(v@[0]));
            }
            lemma_flat_of_scalars(members@, v@);
        }
        r
    }

    /// The number of slots this piece writes, or `None` when that count
    /// does not fit in `usize`.
    pub fn slot_count(&self) -> (r: Option<usize>)
        ensures
            match r {
                Some(n) => n as int == flat(*self).len(),
                None => flat(*self).len() > usize::MAX as int,
            },
        decreases *self,
    {
        match self {
            Piece::Scalar(_) => Some(1),
            Piece::List(ps) => sum_slots(ps),
            Piece::Tuple(ps) => sum_slots(ps),
        }
    }

    /// Appends the slots this piece writes, in emission order, to `dest`.
    /// Exactly `flat(self)` is written: as many slots as the piece's
    /// slot count declares, no one less, no one more.
    pub fn embed(&self, dest: &mut Vec<T>)
        ensures
            final(dest)@ == old(dest)@ + flat(*self),
        decreases *self,
    {
        match self {
            Piece::Scalar(t) => {
                dest.push(*t);
                proof {
                    assert(final(dest)@ =~= old(dest)@ + flat(*self));
                }
            },
            Piece::List(ps) => {
                embed_all(ps, dest);
            },
            Piece::Tuple(ps) => {
                embed_all(ps, dest);
            },
        }
    }
}

/// The total slot count of a sequence of pieces, or `None` when it does
/// not fit in `usize`.
fn sum_slots<T: Copy>(ps: &Vec<Piece<T>>) -> (r: Option<usize>)
    ensures
        match r {
            Some(n) => n as int == flat_list(ps@).len(),
            None => flat_list(ps@).len() > usize::MAX as int,
        },
    decreases *ps,
{
    let mut total: usize = 0;
    let mut i: usize = 0;
    proof {
        assert(ps@.take(0) =~= Seq::<Piece<T>>::empty());
    }
    while i < ps.len()
        invariant
            i <= ps@.len(),
            total as int == flat_list(ps@.take(i as int)).len(),
        decreases ps@.len() - i,
    {
        proof {
            lemma_flat_list_push(ps@.take(i as int), ps@[i as int]);
            assert(ps@.take(i as int + 1) =~= ps@.take(i as int).push(ps@[i as int]));
            lemma_flat_list_concat(ps@.take(i as int + 1), ps@.skip(i as int + 1));
            assert(ps@.take(i as int + 1) + ps@.skip(i as int + 1) =~= ps@);
        }
        let n = match ps[i].slot_count() {
            Some(n) => n,
            None => { return None; },
        };
        total = match total.checked_add(n) {
            Some(t) => t,
            None => { return None; },
        };
        i += 1;
    }
    proof {
        assert(ps@.take(ps@.len() as int) =~= ps@);
    }
    Some(total)
}

/// Appends the slots of every piece of `ps`, in sequence order, to
/// `dest`.
fn embed_all<T: Copy>(ps: &Vec<Piece<T>>, dest: &mut Vec<T>)
    ensures
        final(dest)@ == old(dest)@ + flat_list(ps@),
    decreases *ps,
{
    let mut i: usize = 0;
    proof {
        assert(ps@.take(0) =~= Seq::<Piece<T>>::empty());
        assert(old(dest)@ + flat_list(ps@.take(0)) =~= old(dest)@);
    }
    while i < ps.len()
        invariant
            i <= ps@.len(),
            dest@ == old(dest)@ + flat_list(ps@.take(i as int)),
        decreases ps@.len() - i,
    {
        ps[i].embed(dest);
        proof {
            lemma_flat_list_push(ps@.take(i as int), ps@[i as int]);
            assert(ps@.take(i as int + 1) =~= ps@.take(i as int).push(ps@[i as int]));
            assert(dest@ =~= old(dest)@ + flat_list(ps@.take(i as int + 1)));
        }
        i += 1;
    }
    proof {
        assert(ps@.take(ps@.len() as int) =~= ps@);
    }
}

/// Helper for [`Piece::of_vec`]: a sequence of scalar pieces flattens to
/// exactly the sequence of their values.
proof fn lemma_flat_of_scalars<T>(members: Seq<Piece<T>>, values: Seq<T>)
    requires
        members.len() == values.len(),
        forall|k: int| 0 <= k < members.len()
            ==> #[trigger] members[k] == Piece::Scalar(values[k]),
    ensures
        flat_list(members) == values,
    decreases members.len(),
{
    if members.len() == 0 {
        assert(flat_list(members) =~= values);
    } else {
        assert forall|k: int| 0 <= k < members.drop_first().len()
            implies #[trigger] members.drop_first()[k]
                == Piece::Scalar(values.drop_first()[k]) by {
            assert(members[k + 1] == Piece::Scalar(values[k + 1]));
        }
        lemma_flat_of_scalars(members.drop_first(), values.drop_first());
        assert(members[0] == Piece::Scalar(values[0]));
        assert(flat(members[0]) == seq![values[0]]);
        assert(flat_list(members) == flat(members[0]) + flat_list(members.drop_first()));
        assert(flat_list(members) == seq![values[0]] + values.drop_first());
        assert(flat_list(members) =~= values);
    }
}

/// Why a variadic construction or a piece definition was rejected.
#[derive(Debug, PartialEq, Eq, Structural)]
pub enum NewError {
    /// The pieces handed to [`New::call`] need more slots than the target
    /// vector has.
    TooManyArgs,
    /// The members of a list piece do not all occupy the same number of
    /// slots.
    UnevenList,
    /// A tuple piece was given more than [`TUPLE_ARITY_CAP`] members.
    OversizeTuple,
}

/// The variadic constructor: lays pieces out into a fixed-size vector.
pub struct New;

impl New {
    /// Builds a `vec<T, N>` whose first slots are exactly the slots the
    /// pieces of `args` write, in argument order, and whose remaining
    /// slots each hold `fill`.  Fails with [`NewError::TooManyArgs`]
    /// exactly when the pieces need more than `N` slots; the pieces are
    /// never truncated.
    pub fn call<T: Copy, const N: usize>(&self, args: &Vec<Piece<T>>, fill: T)
        -> (r: Result<crate::math::vec::vec<T, N>, NewError>)
        ensures
            match r {
                Ok(v) => {
                    &&& flat_list(args@).len() <= N as int
                    &&& v.wf()
                    &&& v@ == flat_list(args@)
                        + Seq::new((N as int - flat_list(args@).len()) as nat, |i: int| fill)
                },
                Err(e) => e == NewError::TooManyArgs && flat_list(args@).len() > N as int,
            },
    {
        let total = match sum_slots(args) {
            Some(t) => t,
            None => { return Err(NewError::TooManyArgs); },
        };
        if total > N {
            return Err(NewError::TooManyArgs);
        }
        let mut elems: Vec<T> = Vec::new();
        embed_all(args, &mut elems);
        proof {
            assert(elems@ =~= flat_list(args@));
        }
        let mut i: usize = total;
        while i < N
            invariant
                total as int == flat_list(args@).len(),
                total <= i <= N,
                elems@.len() == i as int,
                elems@.take(total as int) =~= flat_list(args@),
                forall|k: int| total as int <= k < i as int ==> elems@[k] == fill,
            decreases N - i,
        {
            elems.push(fill);
            i += 1;
        }
        proof {
            assert(elems@ =~= flat_list(args@)
                + Seq::new((N as int - flat_list(args@).len()) as nat, |k: int| fill));
        }
        Ok(crate::math::vec::vec::<T, N>::from_raw(elems))
    }
}

} // verus!

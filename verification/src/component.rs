//! A persistent, tag-keyed chain of values.
//!
//! `Empty` is the terminator and `With` the connector: a chain such as
//! `With { tag: a, data: x, next: With { tag: b, data: y, next: Empty } }`
//! stores `x` under tag `a` and `y` under tag `b`.  Chains grow only by
//! wrapping an existing chain in a new `With` node, so the node closest to
//! the head is always the one added last.  Lookup walks from the head
//! toward the terminator and the first node whose tag matches wins, which
//! makes the most recently added value shadow any older one stored under
//! the same tag.

use vstd::prelude::*;

verus! {

/// The value stored under `tag` by the first matching entry, searching
/// from the head of the sequence; `None` when no entry carries `tag`.
pub open spec fn lookup<D>(entries: Seq<(u64, D)>, tag: u64) -> Option<D>
    decreases entries.len(),
{
    if entries.len() == 0 {
        None
    } else if entries[0].0 == tag {
        Some(entries[0].1)
    } else {
        lookup(entries.drop_first(), tag)
    }
}

/// `entries` with the value of the first entry carrying `tag` replaced by
/// `v`; entries before and after that one, and all of them when no entry
/// carries `tag`, are kept as they are.
pub open spec fn update_first<D>(entries: Seq<(u64, D)>, tag: u64, v: D) -> Seq<(u64, D)>
    decreases entries.len(),
{
    if entries.len() == 0 {
        entries
    } else if entries[0].0 == tag {
        entries.update(0, (tag, v))
    } else {
        seq![entries[0]] + update_first(entries.drop_first(), tag, v)
    }
}

/// A container of tagged values that can give a value back by tag.
pub trait Component<D>: Sized {
    /// The tagged values held by this chain, head first.
    spec fn entries(&self) -> Seq<(u64, D)>;

    /// A reference to the value stored under `tag`, if the chain holds one.
    fn get(&self, tag: u64) -> (r: Option<&D>)
        ensures
            match r {
                Some(d) => lookup(self.entries(), tag) == Some(*d),
                None => lookup(self.entries(), tag) is None,
            },
    ;

    /// A mutable reference to the value stored under `tag`, if the chain
    /// holds one.  Writing through the reference replaces exactly the
    /// entry that a lookup for `tag` finds, so a later `get` observes the
    /// written value.
    fn get_mut(&mut self, tag: u64) -> (r: Option<&mut D>)
        ensures
            lookup(old(self).entries(), tag) is None ==> r is None
                && final(self).entries() == old(self).entries(),
            lookup(old(self).entries(), tag) is Some ==> r is Some
                && *r.unwrap() == lookup(old(self).entries(), tag).unwrap()
                && final(self).entries() == update_first(
                    old(self).entries(),
                    tag,
                    *final(r.unwrap()),
                ),
    ;
}

/// Empty chain: contains no value, used as a starter for long chains and
/// as the terminator inside `With`.
pub struct Empty;

impl<D> Component<D> for Empty {
    open spec fn entries(&self) -> Seq<(u64, D)> {
        Seq::empty()
    }

    fn get(&self, tag: u64) -> (r: Option<&D>) {
        None
    }

    fn get_mut(&mut self, tag: u64) -> (r: Option<&mut D>) {
        None
    }
}

/// A chain node: one value of type `D` stored under `tag`, in front of
/// the rest of the chain `next`.
pub struct With<D, N> {
    pub tag: u64,
    pub data: D,
    pub next: N,
}

/// How `lookup` and `update_first` behave on a chain of one entry `head`
/// in front of the entries `rest`; the replacement value is quantified so
/// that the fact is available for values that only exist at return time.
proof fn lemma_head_step<D>(head: (u64, D), rest: Seq<(u64, D)>, tag: u64)
    ensures
        head.0 == tag ==> lookup(seq![head] + rest, tag) == Some(head.1),
        head.0 != tag ==> lookup(seq![head] + rest, tag) == lookup(rest, tag),
        head.0 == tag ==> forall|v: D|
            #[trigger] update_first(seq![head] + rest, tag, v) == seq![(tag, v)] + rest,
        head.0 != tag ==> forall|v: D|
            #[trigger] update_first(seq![head] + rest, tag, v)
                == seq![head] + update_first(rest, tag, v),
{
    let s = seq![head] + rest;
    assert(s[0] == head);
    assert(s.drop_first() =~= rest);
    if head.0 == tag {
        assert forall|v: D|
            #[trigger] update_first(s, tag, v) == seq![(tag, v)] + rest by {
            assert(s.update(0, (tag, v)) =~= seq![(tag, v)] + rest);
        }
    }
}

impl<D, N: Component<D>> Component<D> for With<D, N> {
    open spec fn entries(&self) -> Seq<(u64, D)> {
        seq![(self.tag, self.data)] + self.next.entries()
    }

    fn get(&self, tag: u64) -> (r: Option<&D>) {
        proof {
            lemma_head_step((self.tag, self.data), self.next.entries(), tag);
        }
        if self.tag == tag {
            Some(&self.data)
        } else {
            self.next.get(tag)
        }
    }

    fn get_mut(&mut self, tag: u64) -> (r: Option<&mut D>) {
        proof {
            lemma_head_step((self.tag, self.data), self.next.entries(), tag);
        }
        if self.tag == tag {
            Some(&mut self.data)
        } else {
            self.next.get_mut(tag)
        }
    }
}

/// Law: in a chain whose entries carry pairwise distinct tags, looking up
/// the tag of any entry returns exactly the value of that entry.
pub proof fn lemma_lookup_distinct_tags<D>(entries: Seq<(u64, D)>, i: int)
    requires
        0 <= i < entries.len(),
        forall|j: int, k: int|
            0 <= j < k < entries.len() ==> entries[j].0 != entries[k].0,
    ensures
        lookup(entries, entries[i].0) == Some(entries[i].1),
    decreases entries.len(),
{
    if i > 0 {
        assert(entries[0].0 != entries[i].0);
        assert(entries.drop_first()[i - 1] == entries[i]);
        lemma_lookup_distinct_tags(entries.drop_first(), i - 1);
    }
}

/// Law: looking up a tag that no entry carries returns `None`.
pub proof fn lemma_lookup_absent<D>(entries: Seq<(u64, D)>, tag: u64)
    requires
        forall|j: int| 0 <= j < entries.len() ==> entries[j].0 != tag,
    ensures
        lookup(entries, tag) is None,
    decreases entries.len(),
{
    if entries.len() > 0 {
        lemma_lookup_absent(entries.drop_first(), tag);
    }
}

/// Law: a lookup succeeds exactly when some entry carries the tag.
pub proof fn lemma_lookup_some_iff<D>(entries: Seq<(u64, D)>, tag: u64)
    ensures
        lookup(entries, tag) is Some <==> exists|j: int|
            0 <= j < entries.len() && entries[j].0 == tag,
    decreases entries.len(),
{
    if entries.len() > 0 {
        lemma_lookup_some_iff(entries.drop_first(), tag);
        if entries[0].0 != tag && lookup(entries.drop_first(), tag) is Some {
            let j = choose|j: int|
                0 <= j < entries.drop_first().len() && entries.drop_first()[j].0 == tag;
            assert(entries[j + 1].0 == tag);
        }
        if entries[0].0 != tag
            && exists|j: int| 0 <= j < entries.len() && entries[j].0 == tag {
            let j = choose|j: int| 0 <= j < entries.len() && entries[j].0 == tag;
            assert(entries.drop_first()[j - 1].0 == tag);
        }
    }
}

/// Law: after replacing the first value stored under `tag`, a lookup for
/// `tag` observes the replacement, and lookups for every other tag are
/// unchanged.
pub proof fn lemma_lookup_after_update<D>(entries: Seq<(u64, D)>, tag: u64, v: D, other: u64)
    requires
        lookup(entries, tag) is Some,
    ensures
        lookup(update_first(entries, tag, v), tag) == Some(v),
        other != tag ==> lookup(update_first(entries, tag, v), other) == lookup(entries, other),
    decreases entries.len(),
{
    if entries.len() > 0 {
        if entries[0].0 == tag {
            let updated = entries.update(0, (tag, v));
            assert(updated[0] == (tag, v));
            assert(updated.drop_first() =~= entries.drop_first());
        } else {
            lemma_lookup_after_update(entries.drop_first(), tag, v, other);
            let updated = seq![entries[0]] + update_first(entries.drop_first(), tag, v);
            assert(updated[0] == entries[0]);
            assert(updated.drop_first() =~= update_first(entries.drop_first(), tag, v));
        }
    }
}

} // verus!

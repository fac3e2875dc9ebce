//! Capability resolution over the builder chain.
//!
//! [`GetData`] retrieves the first data item answering to a
//! [`DataTag`], and [`GetFn`] the first callback container answering to
//! an [`EventTag`]; both search from the head of the chain toward the
//! terminator, so the first — most recently added — match wins, and a
//! miss is an ordinary `None`, not an error.  Data items never answer an
//! event lookup and callback items never answer a data lookup.

use vstd::prelude::*;
use crate::window::config::{DataTag, EventTag, Item, data_tag_of, event_tag_of};
use crate::window::fn_container::FnContainer;
use crate::window::type_list::{Empty, TypeList, With};

verus! {

/// The first item of `items` that answers to the data tag `tag`.
pub open spec fn lookup_data(items: Seq<Item>, tag: DataTag) -> Option<Item>
    decreases items.len(),
{
    if items.len() == 0 {
        None
    } else if data_tag_of(items[0]) == Some(tag) {
        Some(items[0])
    } else {
        lookup_data(items.drop_first(), tag)
    }
}

/// The first callback container of `items` that answers to the event
/// tag `tag`.
pub open spec fn lookup_fn(items: Seq<Item>, tag: EventTag) -> Option<FnContainer>
    decreases items.len(),
{
    if items.len() == 0 {
        None
    } else if event_tag_of(items[0]) == Some(tag) {
        match items[0] {
            Item::Callback(fc) => Some(fc),
            _ => None,
        }
    } else {
        lookup_fn(items.drop_first(), tag)
    }
}

/// Law: an item put in front of a chain shadows every older item that
/// answers to the same tag, and leaves the resolution of every other
/// tag unchanged.
pub proof fn lemma_prepend_shadows(head: Item, rest: Seq<Item>, dtag: DataTag, etag: EventTag)
    ensures
        data_tag_of(head) == Some(dtag)
            ==> lookup_data(seq![head] + rest, dtag) == Some(head),
        data_tag_of(head) != Some(dtag)
            ==> lookup_data(seq![head] + rest, dtag) == lookup_data(rest, dtag),
        event_tag_of(head) == Some(etag)
            ==> lookup_fn(seq![head] + rest, etag) == (match head {
                Item::Callback(fc) => Some(fc),
                _ => None,
            }),
        event_tag_of(head) != Some(etag)
            ==> lookup_fn(seq![head] + rest, etag) == lookup_fn(rest, etag),
{
    let s = seq![head] + rest;
    assert(s[0] == head);
    assert(s.drop_first() =~= rest);
}

/// Law: a successful data lookup returns an item of the chain, and one
/// that answers to the requested tag.
pub proof fn lemma_lookup_data_found(items: Seq<Item>, tag: DataTag)
    requires
        lookup_data(items, tag) is Some,
    ensures
        data_tag_of(lookup_data(items, tag).unwrap()) == Some(tag),
        exists|i: int| 0 <= i < items.len()
            && items[i] == lookup_data(items, tag).unwrap(),
    decreases items.len(),
{
    if items.len() > 0 {
        if data_tag_of(items[0]) == Some(tag) {
            assert(items[0] == lookup_data(items, tag).unwrap());
        } else {
            lemma_lookup_data_found(items.drop_first(), tag);
            let i = choose|i: int| 0 <= i < items.drop_first().len()
                && items.drop_first()[i] == lookup_data(items, tag).unwrap();
            assert(items[i + 1] == lookup_data(items, tag).unwrap());
        }
    }
}

/// Law: a data lookup misses exactly when no item of the chain answers
/// to the requested tag.
pub proof fn lemma_lookup_data_none(items: Seq<Item>, tag: DataTag)
    ensures
        lookup_data(items, tag) is None <==> forall|i: int|
            0 <= i < items.len() ==> data_tag_of(#[trigger] items[i]) != Some(tag),
    decreases items.len(),
{
    if items.len() > 0 {
        lemma_lookup_data_none(items.drop_first(), tag);
        if lookup_data(items, tag) is None {
            assert forall|i: int| 0 <= i < items.len()
                implies data_tag_of(#[trigger] items[i]) != Some(tag) by {
                if i > 0 {
                    assert(items.drop_first()[i - 1] == items[i]);
                    assert(data_tag_of(items.drop_first()[i - 1]) != Some(tag));
                }
            }
        } else {
            if data_tag_of(items[0]) != Some(tag) {
                let j = choose|j: int|
                    0 <= j < items.drop_first().len()
                        && data_tag_of(#[trigger] items.drop_first()[j]) == Some(tag);
                assert(items[j + 1] == items.drop_first()[j]);
            }
        }
    }
}

/// Retrieval of a data item by tag.
pub trait GetData: TypeList {
    /// The first data item of the chain answering to `tag`, if any.
    fn get(&self, tag: DataTag) -> (r: Option<&Item>)
        ensures
            match r {
                Some(it) => lookup_data(self.items(), tag) == Some(*it),
                None => lookup_data(self.items(), tag) is None,
            },
    ;
}

/// Retrieval of a callback container by event tag.
pub trait GetFn: TypeList {
    /// The first callback of the chain answering to `tag`, if any.
    fn get(&self, tag: EventTag) -> (r: Option<&FnContainer>)
        ensures
            match r {
                Some(fc) => lookup_fn(self.items(), tag) == Some(*fc),
                None => lookup_fn(self.items(), tag) is None,
            },
    ;
}

impl GetData for Empty {
    fn get(&self, tag: DataTag) -> (r: Option<&Item>) {
        None
    }
}

impl GetFn for Empty {
    fn get(&self, tag: EventTag) -> (r: Option<&FnContainer>) {
        None
    }
}

/// Whether `item` answers to the data tag `tag`.
fn matches_data(item: &Item, tag: DataTag) -> (r: bool)
    ensures
        r == (data_tag_of(*item) == Some(tag)),
{
    match item {
        Item::Title(_) => tag == DataTag::Title,
        Item::Size(_) => tag == DataTag::Size,
        Item::Maximized => tag == DataTag::Maximized,
        Item::SizeIsLogical => tag == DataTag::SizeIsLogical,
        Item::Callback(_) => false,
    }
}

impl<N: GetData> GetData for With<Item, N> {
    fn get(&self, tag: DataTag) -> (r: Option<&Item>) {
        proof {
            lemma_prepend_shadows(self.data, self.next.items(), tag, EventTag::OnClose);
        }
        if matches_data(&self.data, tag) {
            Some(&self.data)
        } else {
            GetData::get(&self.next, tag)
        }
    }
}

impl<N: GetFn> GetFn for With<Item, N> {
    fn get(&self, tag: EventTag) -> (r: Option<&FnContainer>) {
        proof {
            lemma_prepend_shadows(self.data, self.next.items(), DataTag::Title, tag);
        }
        match &self.data {
            Item::Callback(fc) if fc.event == tag => Some(fc),
            _ => GetFn::get(&self.next, tag),
        }
    }
}

} // verus!

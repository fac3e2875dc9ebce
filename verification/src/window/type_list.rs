//! The builder's own item chain.
//!
//! Like the chain of [`crate::component`], but specialised to the
//! builder's [`Item`] values: `Empty` terminates a chain and `With`
//! prepends one item to the rest.  A node's place in the chain is its
//! identity; the lookup traits in [`crate::window::getters`] search from
//! the head, so an item added later shadows an older item that answers
//! to the same tag.

use vstd::prelude::*;
use crate::window::config::Item;

verus! {

/// A chain of configuration items, viewed as the sequence of its items,
/// head first.
pub trait TypeList: Sized {
    /// The items held, most recently added first.
    spec fn items(&self) -> Seq<Item>;
}

/// Terminator.
pub struct Empty;

impl TypeList for Empty {
    open spec fn items(&self) -> Seq<Item> {
        Seq::empty()
    }
}

/// Connector: one item in front of the rest of the chain.
pub struct With<T, N> {
    pub data: T,
    pub next: N,
}

impl<N: TypeList> TypeList for With<Item, N> {
    open spec fn items(&self) -> Seq<Item> {
        seq![self.data] + self.next.items()
    }
}

} // verus!

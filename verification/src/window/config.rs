//! The configuration data model of the window builder.
//!
//! Every configuration option the builder accepts is an [`Item`]; each
//! data item answers to a [`DataTag`] and each stored callback to an
//! [`EventTag`].  Resolving a builder chain produces a [`Config`]: the
//! ordered effects for the external window collaborator plus the
//! resolved callback identifiers, or a [`BuildError`] when the chain
//! violates a conflict or requirement rule.

use vstd::prelude::*;
use crate::window::fn_container::FnContainer;

verus! {

/// The tag of a data field.
#[derive(Debug, Clone, Copy, PartialEq, Eq, Structural)]
pub enum DataTag {
    /// The window title.
    Title,
    /// The window dimensions.
    Size,
    /// The window takes the maximum possible size.
    Maximized,
    /// The given size is logical rather than physical.
    SizeIsLogical,
}

/// The tag of an event a callback can answer.
#[derive(Debug, Clone, Copy, PartialEq, Eq, Structural)]
pub enum EventTag {
    /// The user attempts to close the window.
    OnClose,
    /// The window has just been created.
    OnInit,
    /// The window is being closed for good.
    OnExit,
}

/// One stored configuration item.
pub enum Item {
    /// The window title.
    Title(String),
    /// The window dimensions, width then height.
    Size(crate::math::vec::vec<u32, 2>),
    /// The window takes the maximum possible size.
    Maximized,
    /// The given size is logical rather than physical.
    SizeIsLogical,
    /// A registered event callback.
    Callback(FnContainer),
}

/// The data tag an item answers to; a callback item answers to none.
pub open spec fn data_tag_of(item: Item) -> Option<DataTag> {
    match item {
        Item::Title(_) => Some(DataTag::Title),
        Item::Size(_) => Some(DataTag::Size),
        Item::Maximized => Some(DataTag::Maximized),
        Item::SizeIsLogical => Some(DataTag::SizeIsLogical),
        Item::Callback(_) => None,
    }
}

/// The event tag an item answers to; a data item answers to none.
pub open spec fn event_tag_of(item: Item) -> Option<EventTag> {
    match item {
        Item::Callback(fc) => Some(fc.event),
        _ => None,
    }
}

/// Every size item of the chain holds a well-formed pair.
pub open spec fn chain_wf(items: Seq<Item>) -> bool {
    forall|i: int| 0 <= i < items.len()
        ==> (#[trigger] items[i] matches Item::Size(v) ==> v.wf())
}

/// One effect for the external window collaborator, in the order the
/// collaborator is to apply them.
#[derive(Debug, Clone, PartialEq)]
pub enum Effect {
    /// Set the window title.
    Title(String),
    /// Set the inner size in physical pixels, width then height.
    PhysicalSize(u32, u32),
    /// Set the inner size in logical units, width then height.
    LogicalSize(u32, u32),
    /// Maximize the window.
    Maximized,
}

/// A fully resolved window configuration: what the external collaborator
/// receives after a builder chain passed all checks.
#[derive(Debug)]
pub struct Config {
    /// The effects to apply to the collaborator's own window builder, in
    /// declaration order of the fields they come from.
    pub effects: Vec<Effect>,
    /// The callback run when the user attempts to close the window; when
    /// absent the window is simply closed.
    pub on_close: Option<u64>,
    /// The callback run exactly once, right after the window is created
    /// and before any event dispatch.
    pub on_init: Option<u64>,
    /// The callback run when the window is closed for good.
    pub on_exit: Option<u64>,
}

/// Why a builder chain was rejected at build time.
#[derive(Debug, Clone, PartialEq)]
pub enum BuildError {
    /// Two mutually conflicting fields are both present; carries both
    /// field names.
    Conflict(String, String),
    /// A field that requires another is present while the required one
    /// is absent; carries the dependent field's name, then the required
    /// field's name.
    MissingRequirement(String, String),
}

} // verus!

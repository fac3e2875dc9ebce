//! The window builder.
//!
//! A [`WindowBuilder`] wraps exactly one item chain.  It starts empty;
//! every configuration call consumes the builder and returns a new one
//! whose chain has one more item at its head, so an option given twice
//! is shadowed by the later call.  The terminal [`WindowBuilder::create`]
//! consumes the chain for good: it resolves every declared field and
//! callback through capability resolution, checks the conflict and
//! requirement rules, applies declared defaults, and hands back the
//! resolved [`Config`] for the external windowing collaborator — or the
//! [`BuildError`] naming the fields that violated a rule.

use vstd::prelude::*;
use vstd::pervasive::unreached;
use crate::window::config::{
    BuildError, Config, DataTag, Effect, EventTag, Item, chain_wf, data_tag_of,
};
use crate::window::fn_container::{Callback, FnContainer};
use crate::window::getters::{
    GetData, GetFn, lemma_lookup_data_found, lookup_data, lookup_fn,
};
use crate::window::type_list::{Empty, TypeList, With};

verus! {

/// The title stored in the chain, if one is.
pub open spec fn title_of(items: Seq<Item>) -> Option<String> {
    match lookup_data(items, DataTag::Title) {
        Some(item) => match item {
            Item::Title(s) => Some(s),
            _ => None,
        },
        None => None,
    }
}

/// The size stored in the chain, if one is.
pub open spec fn size_of(items: Seq<Item>) -> Option<crate::math::vec::vec<u32, 2>> {
    match lookup_data(items, DataTag::Size) {
        Some(item) => match item {
            Item::Size(v) => Some(v),
            _ => None,
        },
        None => None,
    }
}

/// The identifier of the callback stored in the chain for `tag`, if one
/// is.
pub open spec fn cb_of(items: Seq<Item>, tag: EventTag) -> Option<u64> {
    match lookup_fn(items, tag) {
        Some(fc) => Some(fc.cb),
        None => None,
    }
}

/// The title the resolved configuration carries: the stored one, or the
/// declared default.
pub open spec fn resolved_title(items: Seq<Item>) -> Seq<char> {
    match title_of(items) {
        Some(s) => s@,
        None => "rokoko window"@,
    }
}

/// Whether `effects` is exactly the effect sequence that resolving
/// `items` must produce: in declaration order, the title effect (stored
/// or default), then the size effect if a size is stored (logical when
/// `size_is_logical` is stored, physical otherwise), then the maximize
/// effect if `maximized` is stored.
pub open spec fn effects_ok(items: Seq<Item>, effects: Seq<Effect>) -> bool {
    let has_size: int = if lookup_data(items, DataTag::Size) is Some { 1 } else { 0 };
    let has_max: int = if lookup_data(items, DataTag::Maximized) is Some { 1 } else { 0 };
    let logical = lookup_data(items, DataTag::SizeIsLogical) is Some;
    &&& effects.len() == 1 + has_size + has_max
    &&& (effects[0] matches Effect::Title(s) && s@ == resolved_title(items))
    &&& (has_size == 1 ==> {
        let v = size_of(items).unwrap();
        effects[1] == if logical {
            Effect::LogicalSize(v@[0], v@[1])
        } else {
            Effect::PhysicalSize(v@[0], v@[1])
        }
    })
    &&& (has_max == 1 ==> effects[1 + has_size] == Effect::Maximized)
}

/// Whether resolving `items` hits the conflict between `size` and
/// `maximized`: both fields are present.
pub open spec fn size_maximized_conflict(items: Seq<Item>) -> bool {
    lookup_data(items, DataTag::Size) is Some
        && lookup_data(items, DataTag::Maximized) is Some
}

/// Whether resolving `items` hits the unmet requirement of
/// `size_is_logical`: it is present while `size` is absent.
pub open spec fn logical_requires_size_violation(items: Seq<Item>) -> bool {
    lookup_data(items, DataTag::SizeIsLogical) is Some
        && lookup_data(items, DataTag::Size) is None
}

/// Law: a chain stays well-formed when a well-formed item is put in
/// front of it.
proof fn lemma_chain_wf_prepend(head: Item, items: Seq<Item>)
    requires
        chain_wf(items),
        head matches Item::Size(v) ==> v.wf(),
    ensures
        chain_wf(seq![head] + items),
{
    assert forall|i: int| 0 <= i < (seq![head] + items).len()
        implies (#[trigger] (seq![head] + items)[i] matches Item::Size(v) ==> v.wf()) by {
        if i == 0 {
            assert((seq![head] + items)[0] == head);
        } else {
            assert((seq![head] + items)[i] == items[i - 1]);
        }
    }
}

/// Type used to provide a convenient interface to window creation.
pub struct WindowBuilder<C>(C);

/// The close-attempt event marker.
pub struct OnClose;

impl Callback for OnClose {
    open spec fn spec_tag() -> EventTag {
        EventTag::OnClose
    }

    fn tag() -> EventTag {
        EventTag::OnClose
    }
}

/// The creation event marker.
pub struct OnInit;

impl Callback for OnInit {
    open spec fn spec_tag() -> EventTag {
        EventTag::OnInit
    }

    fn tag() -> EventTag {
        EventTag::OnInit
    }
}

/// The final-close event marker.
pub struct OnExit;

impl Callback for OnExit {
    open spec fn spec_tag() -> EventTag {
        EventTag::OnExit
    }

    fn tag() -> EventTag {
        EventTag::OnExit
    }
}

impl WindowBuilder<Empty> {
    /// Creates an empty builder.
    pub fn empty() -> (r: Self)
        ensures
            r.items() == Seq::<Item>::empty(),
            chain_wf(r.items()),
    {
        WindowBuilder(Empty)
    }
}

impl<C: TypeList> WindowBuilder<C> {
    /// The items of the wrapped chain, most recently added first.
    pub closed spec fn items(&self) -> Seq<Item> {
        self.0.items()
    }

    /// Transforms the builder into its chain.
    fn to_inner(self) -> (r: C)
        ensures
            r.items() == self.items(),
    {
        self.0
    }

    /// Specifies a title for the window.  Without it the default title
    /// is used.
    pub fn title(self, title: String) -> (r: WindowBuilder<With<Item, C>>)
        ensures
            r.items() == seq![Item::Title(title)] + self.items(),
            chain_wf(self.items()) ==> chain_wf(r.items()),
    {
        proof {
            if chain_wf(self.items()) {
                lemma_chain_wf_prepend(Item::Title(title), self.items());
            }
        }
        WindowBuilder(With { data: Item::Title(title), next: self.to_inner() })
    }

    /// Specifies the dimensions of the window, width then height.  Not
    /// compatible with `maximized`.
    pub fn size(self, size: crate::math::vec::vec<u32, 2>) -> (r: WindowBuilder<With<Item, C>>)
        requires
            size.wf(),
        ensures
            r.items() == seq![Item::Size(size)] + self.items(),
            chain_wf(self.items()) ==> chain_wf(r.items()),
    {
        proof {
            if chain_wf(self.items()) {
                lemma_chain_wf_prepend(Item::Size(size), self.items());
            }
        }
        WindowBuilder(With { data: Item::Size(size), next: self.to_inner() })
    }

    /// Specifies that the window takes the maximum possible size.  Not
    /// compatible with `size`.
    pub fn maximized(self) -> (r: WindowBuilder<With<Item, C>>)
        ensures
            r.items() == seq![Item::Maximized] + self.items(),
            chain_wf(self.items()) ==> chain_wf(r.items()),
    {
        proof {
            if chain_wf(self.items()) {
                lemma_chain_wf_prepend(Item::Maximized, self.items());
            }
        }
        WindowBuilder(With { data: Item::Maximized, next: self.to_inner() })
    }

    /// Specifies that the given size is logical rather than physical.
    /// Requires `size` to be given as well.
    pub fn size_is_logical(self) -> (r: WindowBuilder<With<Item, C>>)
        ensures
            r.items() == seq![Item::SizeIsLogical] + self.items(),
            chain_wf(self.items()) ==> chain_wf(r.items()),
    {
        proof {
            if chain_wf(self.items()) {
                lemma_chain_wf_prepend(Item::SizeIsLogical, self.items());
            }
        }
        WindowBuilder(With { data: Item::SizeIsLogical, next: self.to_inner() })
    }

    /// Registers the callback `cb` for the event `ID`.
    pub fn on_event<ID: Callback>(self, cb: u64) -> (r: WindowBuilder<With<Item, C>>)
        ensures
            r.items() == seq![Item::Callback(FnContainer { event: ID::spec_tag(), cb })]
                + self.items(),
            chain_wf(self.items()) ==> chain_wf(r.items()),
    {
        let tag = ID::tag();
        proof {
            if chain_wf(self.items()) {
                lemma_chain_wf_prepend(
                    Item::Callback(FnContainer { event: ID::spec_tag(), cb }),
                    self.items(),
                );
            }
        }
        WindowBuilder(With {
            data: Item::Callback(FnContainer::new(tag, cb)),
            next: self.to_inner(),
        })
    }

    /// Sets the callback run when the user attempts to close the window
    /// — not when it is actually closed.  Without it the window is
    /// simply closed.  Given twice, the later call wins.
    pub fn on_close(self, cb: u64) -> (r: WindowBuilder<With<Item, C>>)
        ensures
            r.items() == seq![Item::Callback(FnContainer { event: EventTag::OnClose, cb })]
                + self.items(),
            chain_wf(self.items()) ==> chain_wf(r.items()),
    {
        self.on_event::<OnClose>(cb)
    }

    /// Sets the callback run once when the window is created.  Given
    /// twice, the later call wins.
    pub fn on_init(self, cb: u64) -> (r: WindowBuilder<With<Item, C>>)
        ensures
            r.items() == seq![Item::Callback(FnContainer { event: EventTag::OnInit, cb })]
                + self.items(),
            chain_wf(self.items()) ==> chain_wf(r.items()),
    {
        self.on_event::<OnInit>(cb)
    }

    /// Sets the callback run when the window is closed for good; no
    /// other callback runs after it.  Given twice, the later call wins.
    pub fn on_exit(self, cb: u64) -> (r: WindowBuilder<With<Item, C>>)
        ensures
            r.items() == seq![Item::Callback(FnContainer { event: EventTag::OnExit, cb })]
                + self.items(),
            chain_wf(self.items()) ==> chain_wf(r.items()),
    {
        self.on_event::<OnExit>(cb)
    }
}

impl<C: GetData + GetFn> WindowBuilder<C> {
    /// Resolves the chain into a configuration for the external window
    /// collaborator.  Fails with a conflict naming `size` and
    /// `maximized` exactly when both are present, and otherwise with an
    /// unmet requirement naming `size_is_logical` and `size` exactly
    /// when the former is present without the latter; succeeds on every
    /// other chain, with the effects and callbacks that
    /// [`effects_ok`] and [`cb_of`] describe.
    pub fn create(self) -> (r: Result<Config, BuildError>)
        requires
            chain_wf(self.items()),
        ensures
            match r {
                Ok(c) => {
                    &&& !size_maximized_conflict(self.items())
                    &&& !logical_requires_size_violation(self.items())
                    &&& effects_ok(self.items(), c.effects@)
                    &&& c.on_close == cb_of(self.items(), EventTag::OnClose)
                    &&& c.on_init == cb_of(self.items(), EventTag::OnInit)
                    &&& c.on_exit == cb_of(self.items(), EventTag::OnExit)
                },
                Err(e) => match e {
                    BuildError::Conflict(a, b) => {
                        &&& size_maximized_conflict(self.items())
                        &&& a@ == "size"@
                        &&& b@ == "maximized"@
                    },
                    BuildError::MissingRequirement(a, b) => {
                        &&& !size_maximized_conflict(self.items())
                        &&& logical_requires_size_violation(self.items())
                        &&& a@ == "size_is_logical"@
                        &&& b@ == "size"@
                    },
                },
            },
    {
        let ghost items = self.items();
        let data = self.to_inner();

        let title: String = match GetData::get(&data, DataTag::Title) {
            Some(item) => {
                proof {
                    lemma_lookup_data_found(items, DataTag::Title);
                }
                match item {
                    Item::Title(s) => s.clone(),
                    _ => unreached(),
                }
            },
            None => "rokoko window".to_owned(),
        };

        let size: Option<(u32, u32)> = match GetData::get(&data, DataTag::Size) {
            Some(item) => {
                proof {
                    lemma_lookup_data_found(items, DataTag::Size);
                    let i = choose|i: int|
                        0 <= i < items.len()
                            && items[i] == lookup_data(items, DataTag::Size).unwrap();
                    assert(items[i] matches Item::Size(v) ==> v.wf());
                }
                match item {
                    Item::Size(v) => Some((*v.index(0), *v.index(1))),
                    _ => unreached(),
                }
            },
            None => None,
        };

        let maximized = GetData::get(&data, DataTag::Maximized).is_some();
        let logical = GetData::get(&data, DataTag::SizeIsLogical).is_some();

        if size.is_some() && maximized {
            return Err(BuildError::Conflict("size".to_owned(), "maximized".to_owned()));
        }
        if logical && size.is_none() {
            return Err(BuildError::MissingRequirement(
                "size_is_logical".to_owned(),
                "size".to_owned(),
            ));
        }

        let mut effects: Vec<Effect> = Vec::new();
        effects.push(Effect::Title(title));
        match size {
            Some((width, height)) => {
                if logical {
                    effects.push(Effect::LogicalSize(width, height));
                } else {
                    effects.push(Effect::PhysicalSize(width, height));
                }
            },
            None => {},
        }
        if maximized {
            effects.push(Effect::Maximized);
        }

        let on_close = match GetFn::get(&data, EventTag::OnClose) {
            Some(fc) => Some(fc.cb),
            None => None,
        };
        let on_init = match GetFn::get(&data, EventTag::OnInit) {
            Some(fc) => Some(fc.cb),
            None => None,
        };
        let on_exit = match GetFn::get(&data, EventTag::OnExit) {
            Some(fc) => Some(fc.cb),
            None => None,
        };

        Ok(Config { effects, on_close, on_init, on_exit })
    }
}

} // verus!


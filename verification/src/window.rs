//! The window layer: the builder that accumulates configuration, the
//! declarative field and event descriptors behind it, and the dispatch
//! state machine that decides which callback an incoming event runs.
//!
//! The library itself opens no window.  [`builder::WindowBuilder::create`]
//! resolves a chain into a [`config::Config`]; the surrounding program
//! hands that configuration to its windowing collaborator, keeps a
//! dispatch table from callback identifiers to the actual functions, and
//! drives a [`Session`] with the events the collaborator delivers,
//! performing the [`Action`] the session decides on — one callback at a
//! time, to completion, with no overlap.

pub mod builder;
pub mod config;
pub mod data;
pub mod declaration;
pub mod fn_container;
pub mod getters;
pub mod type_list;

use vstd::prelude::*;
use crate::window::config::Config;
use crate::window::data::UserEvent;

verus! {

/// An incoming event, as the windowing collaborator reports it.
#[derive(Debug, Clone, Copy, PartialEq, Eq, Structural)]
pub enum Event {
    /// The user attempts to close the window.
    CloseRequested,
    /// An event the library itself sent through the loop.
    User(UserEvent),
    /// Anything else; the session ignores it.
    Other,
}

/// What the surrounding program is to do next.
#[derive(Debug, Clone, Copy, PartialEq, Eq, Structural)]
pub enum Action {
    /// Run the callback with this identifier, passing it the window.
    RunCallback(u64),
    /// Apply the default close behaviour: close the window, that is,
    /// send [`UserEvent::Close`] through the loop.
    CloseWindow,
    /// Do nothing.
    Nothing,
}

/// Where a session stands.
#[derive(Debug, Clone, Copy, PartialEq, Eq, Structural)]
pub enum Phase {
    /// Constructed; the one-time initialization has not run yet.
    Created,
    /// Initialization done; events are being dispatched.
    Running,
    /// The close event arrived; no event has any effect any more.
    Halted,
}

/// The dispatch state machine of one window: decides, for each incoming
/// event, which registered callback runs or which default behaviour
/// applies.  The initialization callback runs exactly once, before any
/// event dispatch, through [`Session::start`]; once the session halts it
/// stays halted.
pub struct Session {
    phase: Phase,
    on_close: Option<u64>,
    on_init: Option<u64>,
    on_exit: Option<u64>,
}

impl Session {
    /// Where the session stands.
    pub closed spec fn phase(&self) -> Phase {
        self.phase
    }

    /// The registered close-attempt callback.
    pub closed spec fn close_cb(&self) -> Option<u64> {
        self.on_close
    }

    /// The registered initialization callback.
    pub closed spec fn init_cb(&self) -> Option<u64> {
        self.on_init
    }

    /// The registered final-close callback.
    pub closed spec fn exit_cb(&self) -> Option<u64> {
        self.on_exit
    }

    /// A session for a resolved configuration, not yet started.
    pub fn new(config: &Config) -> (s: Session)
        ensures
            s.phase() == Phase::Created,
            s.close_cb() == config.on_close,
            s.init_cb() == config.on_init,
            s.exit_cb() == config.on_exit,
    {
        Session {
            phase: Phase::Created,
            on_close: config.on_close,
            on_init: config.on_init,
            on_exit: config.on_exit,
        }
    }

    /// Whether the unique initialization step has run.
    pub fn started(&self) -> (b: bool)
        ensures
            b == (self.phase() != Phase::Created),
    {
        match self.phase {
            Phase::Created => false,
            _ => true,
        }
    }

    /// The unique initialization step: callable exactly once, right
    /// after construction and before any event is dispatched.  Returns
    /// the initialization callback's action, or nothing when none is
    /// registered.
    pub fn start(&mut self) -> (a: Action)
        requires
            old(self).phase() == Phase::Created,
        ensures
            final(self).phase() == Phase::Running,
            final(self).close_cb() == old(self).close_cb(),
            final(self).init_cb() == old(self).init_cb(),
            final(self).exit_cb() == old(self).exit_cb(),
            a == match old(self).init_cb() {
                Some(cb) => Action::RunCallback(cb),
                None => Action::Nothing,
            },
    {
        self.phase = Phase::Running;
        match self.on_init {
            Some(cb) => Action::RunCallback(cb),
            None => Action::Nothing,
        }
    }

    /// One dispatch step: decides the action for `event`.  A close
    /// attempt runs the close callback, or closes the window when none
    /// is registered; the close event runs the final-close callback and
    /// halts the session for good; anything else does nothing.  After a
    /// halt every further event does nothing.
    pub fn step(&mut self, event: Event) -> (a: Action)
        requires
            old(self).phase() != Phase::Created,
        ensures
            final(self).close_cb() == old(self).close_cb(),
            final(self).init_cb() == old(self).init_cb(),
            final(self).exit_cb() == old(self).exit_cb(),
            old(self).phase() == Phase::Halted ==> final(self).phase() == Phase::Halted
                && a == Action::Nothing,
            old(self).phase() == Phase::Running ==> match event {
                Event::CloseRequested => final(self).phase() == Phase::Running
                    && a == match old(self).close_cb() {
                        Some(cb) => Action::RunCallback(cb),
                        None => Action::CloseWindow,
                    },
                Event::User(UserEvent::Close) => final(self).phase() == Phase::Halted
                    && a == match old(self).exit_cb() {
                        Some(cb) => Action::RunCallback(cb),
                        None => Action::Nothing,
                    },
                Event::Other => final(self).phase() == Phase::Running
                    && a == Action::Nothing,
            },
    {
        match self.phase {
            Phase::Halted => Action::Nothing,
            _ => match event {
                Event::CloseRequested => match self.on_close {
                    Some(cb) => Action::RunCallback(cb),
                    None => Action::CloseWindow,
                },
                Event::User(UserEvent::Close) => {
                    self.phase = Phase::Halted;
                    match self.on_exit {
                        Some(cb) => Action::RunCallback(cb),
                        None => Action::Nothing,
                    }
                },
                Event::Other => Action::Nothing,
            },
        }
    }
}

} // verus!

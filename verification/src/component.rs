//! The capability set that panels, the button bar and dialogs share.

use vstd::prelude::*;

use crate::app::{DialogType, Key, MouseEvent, PubSub};
use crate::config::Config;

verus! {

/// The error a component's handler fails with, carried through as it is.
#[verifier::external_type_specification]
#[verifier::external_body]
pub struct ExError(anyhow::Error);

/// Whether a component is drawn as the owner of keyboard focus.
#[derive(Debug, Clone, Copy, PartialEq, Eq)]
pub enum Focus {
    Normal,
    Focused,
}

/// The error of a handler's result, if it failed.
pub open spec fn failure(r: Result<(), anyhow::Error>) -> Option<anyhow::Error> {
    match r {
        Ok(_) => None,
        Err(e) => Some(e),
    }
}

/// A focusable element of the user interface.
///
/// Each handler comes with a relation that says which outcomes it may have:
/// the state before, what was handed in, the state after and the result. An
/// implementation chooses its relations; left as they are here, they hold of
/// everything and promise nothing. The orchestrator's contracts are stated
/// over them, so they say which handler was called, on what, and how often.
/// Nothing holds an implementation outside this crate to the relations it
/// would state.
pub trait Component: Sized {
    /// The outcomes `handle_key` may have.
    open spec fn key_step(pre: Self, key: Key, post: Self, r: Result<bool, anyhow::Error>) -> bool {
        true
    }

    /// The outcomes `handle_mouse` may have; `failed` is its error, if any.
    open spec fn mouse_step(pre: Self, mouse: MouseEvent, post: Self, failed: Option<anyhow::Error>) -> bool {
        true
    }

    /// The outcomes `handle_pubsub` may have; `failed` is its error, if any.
    open spec fn pubsub_step(pre: Self, msg: PubSub, post: Self, failed: Option<anyhow::Error>) -> bool {
        true
    }

    /// Offers a key press; `Ok(true)` says that the component consumed it.
    fn handle_key(&mut self, key: &Key) -> (r: Result<bool, anyhow::Error>)
        ensures
            Self::key_step(*old(self), *key, *final(self), r),
    ;

    /// Offers a mouse event.
    fn handle_mouse(&mut self, mouse: &MouseEvent) -> (r: Result<(), anyhow::Error>)
        ensures
            Self::mouse_step(*old(self), *mouse, *final(self), failure(r)),
    ;

    /// Delivers a bus message.
    fn handle_pubsub(&mut self, msg: &PubSub) -> (r: Result<(), anyhow::Error>)
        ensures
            Self::pubsub_step(*old(self), *msg, *final(self), failure(r)),
    ;
}

/// Builds the notice dialogs that the orchestrator opens. As with a
/// component, the relation is the implementation's to choose.
pub trait DialogFactory<D> {
    /// The outcomes `notice` may have.
    open spec fn makes(&self, kind: DialogType, title: Seq<char>, text: Seq<char>, r: Result<D, anyhow::Error>) -> bool {
        true
    }

    /// Builds a notice of the given severity, title and text.
    fn notice(&self, config: &Config, kind: DialogType, title: &str, text: &str) -> (r: Result<D, anyhow::Error>)
        ensures
            self.makes(kind, title@, text@, r),
    ;
}

} // verus!

//! A revertible action.
//!
//! Returned by the functions that register something with the host and may
//! have to unregister it later. Ownership is linear: a [`Revertible`] is
//! consumed by exactly one of reverting, leaking, converting to the inner
//! action, or committing it to the unload queue, and can never be consumed
//! twice.

use vstd::prelude::*;

use crate::host::UnloadAction;
use crate::lifecycle::{on_unload, LifecycleState};

verus! {

/// A revertible action wrapping an undo value of type `T`.
///
/// There are several ways to deal with a received [`Revertible`]:
/// - Call [`revert`](Revertible::revert) to obtain the undo action for
///   immediate execution.
/// - Call [`into_inner`](Revertible::into_inner) to keep the undo action for
///   later.
/// - Call [`leak`](Revertible::leak) to discard it and manage the underlying
///   registration manually.
/// - Commit it to the unload queue so the undo runs when the host unloads
///   the addon.
#[must_use]
pub struct Revertible<T> {
    revert: T,
}

impl<T> Revertible<T> {
    /// The undo action held by this revertible.
    pub closed spec fn action(&self) -> T {
        self.revert
    }

    /// Creates a new revertible action.
    pub fn new(revert: T) -> (r: Self)
        ensures
            r.action() == revert,
    {
        Self { revert }
    }

    /// Turns the revertible into the inner undo action.
    #[must_use]
    pub fn into_inner(self) -> (r: T)
        ensures
            r == self.action(),
    {
        self.revert
    }

    /// Leaves the action to not be reverted.
    ///
    /// The reversion has to be performed manually. The undo action is
    /// dropped without ever being handed out, so nothing can run it.
    pub fn leak(self) {
    }

    /// Reverts the action: consumes the revertible and yields the undo
    /// action, which the caller must perform now.
    ///
    /// The revertible is consumed by value, so the undo can be obtained at
    /// most once.
    pub fn revert(self) -> (r: T)
        ensures
            r == self.action(),
    {
        self.revert
    }
}

impl Revertible<UnloadAction> {
    /// Submits the undo action to the unload queue, to be reverted when the
    /// host unloads the addon.
    pub fn revert_on_unload(self, state: &mut LifecycleState)
        ensures
            final(state).queued() == old(state).queued().push(self.action()),
            final(state).api() == old(state).api(),
            final(state).render_context() == old(state).render_context(),
    {
        on_unload(state, self.into_inner());
    }
}

} // verus!

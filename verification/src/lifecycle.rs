//! Process-wide lifecycle state.
//!
//! The host hands the addon exactly one capability table per load, and later
//! asks it to unload. This module owns that handshake: the table reference
//! and the derived render context are set exactly once, every wrapped call
//! is gated on them being set, and a first-in-first-out queue collects the
//! undo actions to run during unload. The embedding layer holds one value of
//! [`LifecycleState`] at its native entry points and passes it to the
//! library explicitly.

use vstd::prelude::*;

use crate::host::UnloadAction;

verus! {

/// What the lifecycle reads from the host's capability table: plain handles
/// standing for the native pointers the embedding layer received.
#[derive(Debug, Clone, Copy, PartialEq, Eq, Structural)]
pub struct ApiTable {
    /// Handle of the host's UI rendering context.
    pub imgui_context: u64,
    /// Handle of the allocation function of the UI rendering library.
    pub imgui_malloc: u64,
    /// Handle of the matching free function.
    pub imgui_free: u64,
}

/// Error of [`LifecycleState::initialize`].
#[derive(Debug, Clone, Copy, PartialEq, Eq, Structural)]
pub enum InitError {
    /// The lifecycle was already initialized: there is exactly one valid
    /// host handshake per load, so a second one is a broken integration.
    AlreadyInitialized,
}

/// The process-wide singleton of the addon.
///
/// Holds the host's table (write-once), the render context derived from it
/// (write-once), and the queue of pending unload actions (append-only until
/// drained).
pub struct LifecycleState {
    api: Option<ApiTable>,
    render_context: Option<u64>,
    unload_actions: Vec<UnloadAction>,
}

impl LifecycleState {
    /// The stored host table, if initialized.
    pub closed spec fn api(&self) -> Option<ApiTable> {
        self.api
    }

    /// The stored render context, if initialized.
    pub closed spec fn render_context(&self) -> Option<u64> {
        self.render_context
    }

    /// The queued unload actions, oldest first.
    pub closed spec fn queued(&self) -> Seq<UnloadAction> {
        self.unload_actions@
    }

    /// Whether the host handshake has happened: the table and the render
    /// context derived from it are stored.
    pub open spec fn is_initialized(&self) -> bool {
        self.api() is Some && self.render_context() is Some
    }

    /// Creates the state of a freshly loaded addon: not initialized, with no
    /// queued unload actions.
    pub fn new() -> (r: Self)
        ensures
            !r.is_initialized(),
            r.api() is None,
            r.render_context() is None,
            r.queued() == Seq::<UnloadAction>::empty(),
    {
        Self { api: None, render_context: None, unload_actions: Vec::new() }
    }

    /// Stores the host's table and derives the render context from it.
    ///
    /// Exactly one call succeeds: any later call — with any table, including
    /// the same one — fails and leaves the first stored table untouched.
    pub fn initialize(&mut self, api: ApiTable) -> (r: Result<(), InitError>)
        ensures
            old(self).is_initialized() ==> {
                &&& r == Err::<(), InitError>(InitError::AlreadyInitialized)
                &&& final(self).api() == old(self).api()
                &&& final(self).render_context() == old(self).render_context()
                &&& final(self).queued() == old(self).queued()
            },
            !old(self).is_initialized() ==> {
                &&& r == Ok::<(), InitError>(())
                &&& final(self).api() == Some(api)
                &&& final(self).render_context() == Some(api.imgui_context)
                &&& final(self).queued() == old(self).queued()
            },
            final(self).is_initialized(),
    {
        if self.api.is_some() && self.render_context.is_some() {
            Err(InitError::AlreadyInitialized)
        } else {
            self.api = Some(api);
            self.render_context = Some(api.imgui_context);
            Ok(())
        }
    }

    /// Whether the host handshake has happened, as an executable check for
    /// the embedding layer to test before calling what requires it.
    pub fn initialized(&self) -> (r: bool)
        ensures
            r == self.is_initialized(),
    {
        self.api.is_some() && self.render_context.is_some()
    }

    /// Returns the stored host table.
    ///
    /// Callable only after [`initialize`](LifecycleState::initialize): there
    /// is no sane way to continue without the table.
    pub fn addon_api(&self) -> (r: &ApiTable)
        requires
            self.is_initialized(),
        ensures
            Some(*r) == self.api(),
    {
        match &self.api {
            Some(api) => api,
            None => unreached(),
        }
    }

    /// Returns the stored render context.
    ///
    /// Callable only after [`initialize`](LifecycleState::initialize).
    pub fn render_context_handle(&self) -> (r: u64)
        requires
            self.is_initialized(),
        ensures
            Some(r) == self.render_context(),
    {
        match self.render_context {
            Some(context) => context,
            None => unreached(),
        }
    }

    /// Appends an action to be performed on addon unload.
    ///
    /// Callable any time between initialization and the unload drain.
    pub fn queue_unload_action(&mut self, action: UnloadAction)
        ensures
            final(self).queued() == old(self).queued().push(action),
            final(self).api() == old(self).api(),
            final(self).render_context() == old(self).render_context(),
    {
        self.unload_actions.push(action);
    }

    /// Takes ownership of the current queue contents, replacing it with the
    /// empty queue, and returns the actions in the order they were queued.
    ///
    /// The embedding layer performs each returned action once, in order,
    /// catching a panic of an individual action so that the remaining
    /// actions still run. With an empty queue this returns no action and
    /// changes nothing.
    pub fn run_unload(&mut self) -> (r: Vec<UnloadAction>)
        ensures
            r@ == old(self).queued(),
            final(self).queued() == Seq::<UnloadAction>::empty(),
            final(self).api() == old(self).api(),
            final(self).render_context() == old(self).render_context(),
    {
        let mut drained: Vec<UnloadAction> = Vec::new();
        core::mem::swap(&mut self.unload_actions, &mut drained);
        drained
    }
}

/// Adds a new action to be performed on unload.
pub fn on_unload(state: &mut LifecycleState, action: UnloadAction)
    ensures
        final(state).queued() == old(state).queued().push(action),
        final(state).api() == old(state).api(),
        final(state).render_context() == old(state).render_context(),
{
    state.queue_unload_action(action);
}

/// One step of the unload drain: hands out the next pending action,
/// whatever became of the previous one.
///
/// `previous_panicked` is the outcome of the action executed before this
/// step. The result does not depend on it: a panicking action is caught by
/// the embedding layer and the drain continues, so one misbehaving cleanup
/// cannot prevent the rest from running.
pub fn next_unload_action(pending: &mut Vec<UnloadAction>, previous_panicked: bool) -> (r: Option<
    UnloadAction,
>)
    ensures
        old(pending)@.len() == 0 ==> {
            &&& r is None
            &&& final(pending)@ == old(pending)@
        },
        old(pending)@.len() > 0 ==> {
            &&& r == Some(old(pending)@[0])
            &&& final(pending)@ == old(pending)@.skip(1)
        },
{
    if pending.len() == 0 {
        None
    } else {
        Some(pending.remove(0))
    }
}

} // verus!

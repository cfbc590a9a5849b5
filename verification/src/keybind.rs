//! Addon keybinds.

use vstd::prelude::*;

use crate::host::{HostCall, UnloadAction};
use crate::lifecycle::LifecycleState;
use crate::revertible::Revertible;
use crate::util::no_interior_nul;

verus! {

/// A keybind: a key code together with its modifiers.
#[derive(Debug, Clone, Copy, PartialEq, Eq, Structural)]
pub struct Keybind {
    /// The key.
    pub key: u16,
    /// Alt modifier.
    pub alt: bool,
    /// Control modifier.
    pub ctrl: bool,
    /// Shift modifier.
    pub shift: bool,
}

impl Keybind {
    /// Creates a new keybind without modifiers.
    pub fn without_modifiers(key: u16) -> (r: Self)
        ensures
            r == (Keybind { key, alt: false, ctrl: false, shift: false }),
    {
        Self { key, alt: false, ctrl: false, shift: false }
    }

    /// Checks whether the keybind has modifiers: whether alt, control or
    /// shift is set.
    pub fn has_modifiers(&self) -> (r: bool)
        ensures
            r == (self.alt || self.ctrl || self.shift),
    {
        self.alt || self.ctrl || self.shift
    }
}

/// Describes triggering a previously registered keybind programmatically.
pub fn invoke_keybind(state: &LifecycleState, identifier: String, is_release: bool) -> (r:
    HostCall)
    requires
        state.is_initialized(),
        no_interior_nul(identifier@),
    ensures
        r == (HostCall::KeybindInvoke { identifier, is_release }),
{
    HostCall::KeybindInvoke { identifier, is_release }
}

/// Describes registering a new keybind from a keybind string like
/// `"ALT+SHIFT+T"`, with a handler standing for the callback the embedding
/// layer registered for this keybind.
///
/// Returns the call to perform and a [`Revertible`] holding the matching
/// deregistration.
pub fn register_keybind_with_string(
    state: &LifecycleState,
    identifier: String,
    handler: u64,
    keybind: String,
) -> (r: (HostCall, Revertible<UnloadAction>))
    requires
        state.is_initialized(),
        no_interior_nul(identifier@),
        no_interior_nul(keybind@),
    ensures
        r.0 == (HostCall::KeybindRegisterWithString {
            identifier: identifier,
            handler,
            keybind: keybind,
        }),
        r.1.action() == (UnloadAction::KeybindDeregister { identifier }),
{
    let undo = UnloadAction::KeybindDeregister { identifier: identifier.clone() };
    let call = HostCall::KeybindRegisterWithString { identifier, handler, keybind };
    (call, Revertible::new(undo))
}

/// Describes registering a new keybind from a [`Keybind`] struct, with a
/// handler standing for the callback the embedding layer registered.
///
/// Returns the call to perform and a [`Revertible`] holding the matching
/// deregistration.
pub fn register_keybind_with_struct(
    state: &LifecycleState,
    identifier: String,
    handler: u64,
    keybind: Keybind,
) -> (r: (HostCall, Revertible<UnloadAction>))
    requires
        state.is_initialized(),
        no_interior_nul(identifier@),
    ensures
        r.0 == (HostCall::KeybindRegisterWithStruct {
            identifier: identifier,
            handler,
            keybind,
        }),
        r.1.action() == (UnloadAction::KeybindDeregister { identifier }),
{
    let undo = UnloadAction::KeybindDeregister { identifier: identifier.clone() };
    let call = HostCall::KeybindRegisterWithStruct { identifier, handler, keybind };
    (call, Revertible::new(undo))
}

/// Describes unregistering a previously registered keybind, for immediate
/// execution by the embedding layer.
pub fn unregister_keybind(state: &LifecycleState, identifier: String) -> (r: UnloadAction)
    requires
        state.is_initialized(),
        no_interior_nul(identifier@),
    ensures
        r == (UnloadAction::KeybindDeregister { identifier }),
{
    UnloadAction::KeybindDeregister { identifier }
}

} // verus!

//! Quick access shortcut creation.

use vstd::prelude::*;

use crate::host::{HostCall, UnloadAction};
use crate::lifecycle::LifecycleState;
use crate::revertible::Revertible;
use crate::util::no_interior_nul;

verus! {

/// Describes adding a shortcut icon to the quick access with the given
/// texture identifiers. When clicked, the given keybind identifier is
/// triggered.
///
/// Returns the call to perform and a [`Revertible`] holding the removal of
/// the shortcut.
pub fn add_quick_access(
    state: &LifecycleState,
    identifier: String,
    texture_identifier: String,
    texture_hover_identifier: String,
    keybind_identifier: String,
    tooltip_text: String,
) -> (r: (HostCall, Revertible<UnloadAction>))
    requires
        state.is_initialized(),
        no_interior_nul(identifier@),
        no_interior_nul(texture_identifier@),
        no_interior_nul(texture_hover_identifier@),
        no_interior_nul(keybind_identifier@),
        no_interior_nul(tooltip_text@),
    ensures
        r.0 == (HostCall::QuickAccessAdd {
            identifier: identifier,
            texture_identifier,
            texture_hover_identifier,
            keybind_identifier,
            tooltip_text,
        }),
        r.1.action() == (UnloadAction::QuickAccessRemove { identifier }),
{
    let undo = UnloadAction::QuickAccessRemove { identifier: identifier.clone() };
    let call = HostCall::QuickAccessAdd {
        identifier,
        texture_identifier,
        texture_hover_identifier,
        keybind_identifier,
        tooltip_text,
    };
    (call, Revertible::new(undo))
}

/// Describes removing a previously registered shortcut from the quick
/// access, for immediate execution by the embedding layer.
pub fn remove_quick_access(state: &LifecycleState, identifier: String) -> (r: UnloadAction)
    requires
        state.is_initialized(),
        no_interior_nul(identifier@),
    ensures
        r == (UnloadAction::QuickAccessRemove { identifier }),
{
    UnloadAction::QuickAccessRemove { identifier }
}

/// Describes sending a notification to the given quick access shortcut.
pub fn notify_quick_access(state: &LifecycleState, identifier: String) -> (r: HostCall)
    requires
        state.is_initialized(),
        no_interior_nul(identifier@),
    ensures
        r == (HostCall::QuickAccessNotify { identifier }),
{
    HostCall::QuickAccessNotify { identifier }
}

/// Describes adding a render callback for the shortcut context menu, for the
/// quick access itself or for the shortcut named by `target_identifier`.
///
/// Returns the call to perform and a [`Revertible`] holding the removal of
/// the context menu.
pub fn add_quick_access_context_menu(
    state: &LifecycleState,
    identifier: String,
    target_identifier: Option<String>,
    render_callback: u64,
) -> (r: (HostCall, Revertible<UnloadAction>))
    requires
        state.is_initialized(),
        no_interior_nul(identifier@),
        target_identifier is Some ==> no_interior_nul(target_identifier->Some_0@),
    ensures
        r.0 == (HostCall::ContextMenuAdd {
            identifier: identifier,
            target_identifier,
            callback: render_callback,
        }),
        r.1.action() == (UnloadAction::ContextMenuRemove { identifier }),
{
    let undo = UnloadAction::ContextMenuRemove { identifier: identifier.clone() };
    let call = HostCall::ContextMenuAdd {
        identifier,
        target_identifier,
        callback: render_callback,
    };
    (call, Revertible::new(undo))
}

/// Describes removing a previously registered shortcut context menu
/// callback, for immediate execution by the embedding layer.
pub fn remove_quick_access_context_menu(state: &LifecycleState, identifier: String) -> (r:
    UnloadAction)
    requires
        state.is_initialized(),
        no_interior_nul(identifier@),
    ensures
        r == (UnloadAction::ContextMenuRemove { identifier }),
{
    UnloadAction::ContextMenuRemove { identifier }
}

/// Describes adding a shortcut icon to the quick access.
///
/// Alias kept for callers of the older name of
/// [`add_quick_access`].
pub fn add_shortcut(
    state: &LifecycleState,
    identifier: String,
    texture_identifier: String,
    texture_hover_identifier: String,
    keybind_identifier: String,
    tooltip_text: String,
) -> (r: (HostCall, Revertible<UnloadAction>))
    requires
        state.is_initialized(),
        no_interior_nul(identifier@),
        no_interior_nul(texture_identifier@),
        no_interior_nul(texture_hover_identifier@),
        no_interior_nul(keybind_identifier@),
        no_interior_nul(tooltip_text@),
    ensures
        r.0 == (HostCall::QuickAccessAdd {
            identifier: identifier,
            texture_identifier,
            texture_hover_identifier,
            keybind_identifier,
            tooltip_text,
        }),
        r.1.action() == (UnloadAction::QuickAccessRemove { identifier }),
{
    add_quick_access(
        state,
        identifier,
        texture_identifier,
        texture_hover_identifier,
        keybind_identifier,
        tooltip_text,
    )
}

/// Describes removing a previously registered shortcut.
///
/// Alias kept for callers of the older name of [`remove_quick_access`].
pub fn remove_shortcut(state: &LifecycleState, identifier: String) -> (r: UnloadAction)
    requires
        state.is_initialized(),
        no_interior_nul(identifier@),
    ensures
        r == (UnloadAction::QuickAccessRemove { identifier }),
{
    remove_quick_access(state, identifier)
}

/// Describes adding a render callback fired when the quick access is
/// right-clicked.
///
/// Alias kept for callers of the older name of
/// [`add_quick_access_context_menu`].
pub fn add_simple_shortcut(state: &LifecycleState, identifier: String, render_callback: u64) -> (r:
    (HostCall, Revertible<UnloadAction>))
    requires
        state.is_initialized(),
        no_interior_nul(identifier@),
    ensures
        r.0 == (HostCall::ContextMenuAdd {
            identifier: identifier,
            target_identifier: None,
            callback: render_callback,
        }),
        r.1.action() == (UnloadAction::ContextMenuRemove { identifier }),
{
    add_quick_access_context_menu(state, identifier, None, render_callback)
}

/// Describes removing a previously registered simple shortcut callback.
///
/// Alias kept for callers of the older name of
/// [`remove_quick_access_context_menu`].
pub fn remove_simple_shortcut(state: &LifecycleState, identifier: String) -> (r: UnloadAction)
    requires
        state.is_initialized(),
        no_interior_nul(identifier@),
    ensures
        r == (UnloadAction::ContextMenuRemove { identifier }),
{
    remove_quick_access_context_menu(state, identifier)
}

} // verus!

//! Window procedure callbacks relayed by the host.

use vstd::prelude::*;

use crate::host::{HostCall, UnloadAction};
use crate::lifecycle::LifecycleState;
use crate::revertible::Revertible;

verus! {

/// Describes registering a window procedure callback, identified by the
/// token of the native callback the embedding layer created.
///
/// Returns the call to perform and a [`Revertible`] holding the matching
/// deregistration.
pub fn register_wnd_proc(state: &LifecycleState, callback: u64) -> (r: (
    HostCall,
    Revertible<UnloadAction>,
))
    requires
        state.is_initialized(),
    ensures
        r.0 == (HostCall::WndProcRegister { callback }),
        r.1.action() == (UnloadAction::WndProcDeregister { callback }),
{
    (
        HostCall::WndProcRegister { callback },
        Revertible::new(UnloadAction::WndProcDeregister { callback }),
    )
}

/// Describes deregistering an already registered window procedure callback,
/// for immediate execution by the embedding layer.
pub fn deregister_wnd_proc(state: &LifecycleState, callback: u64) -> (r: UnloadAction)
    requires
        state.is_initialized(),
    ensures
        r == (UnloadAction::WndProcDeregister { callback }),
{
    UnloadAction::WndProcDeregister { callback }
}

/// Describes sending a window message directly to the game, bypassing other
/// hooks.
pub fn send_wnd_proc_to_game(
    state: &LifecycleState,
    h_wnd: u64,
    u_msg: u32,
    w_param: u64,
    l_param: u64,
) -> (r: HostCall)
    requires
        state.is_initialized(),
    ensures
        r == (HostCall::WndProcSendToGame { h_wnd, u_msg, w_param, l_param }),
{
    HostCall::WndProcSendToGame { h_wnd, u_msg, w_param, l_param }
}

} // verus!

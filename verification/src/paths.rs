//! Paths of the host's installation and addon directories.
//!
//! The host answers each of these calls with a null-terminated path string,
//! which the embedding layer reads into an owned value.

use vstd::prelude::*;

use crate::host::HostCall;
use crate::lifecycle::LifecycleState;
use crate::util::no_interior_nul;

verus! {

/// Describes asking for the game directory.
pub fn get_game_dir(state: &LifecycleState) -> (r: HostCall)
    requires
        state.is_initialized(),
    ensures
        r == HostCall::PathGetGameDir,
{
    HostCall::PathGetGameDir
}

/// Describes asking for the directory of the addon with the passed name.
pub fn get_addon_dir(state: &LifecycleState, name: String) -> (r: HostCall)
    requires
        state.is_initialized(),
        no_interior_nul(name@),
    ensures
        r == (HostCall::PathGetAddonDir { name }),
{
    HostCall::PathGetAddonDir { name }
}

/// Describes asking for the common addon directory, which the host keeps as
/// the directory of an addon named "common".
pub fn get_common_dir(state: &LifecycleState) -> (r: HostCall)
    requires
        state.is_initialized(),
    ensures
        r == HostCall::PathGetCommonDir,
{
    HostCall::PathGetCommonDir
}

} // verus!

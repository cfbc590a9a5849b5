//! Alert notifications displayed to the user.

use vstd::prelude::*;

use crate::host::HostCall;
use crate::lifecycle::LifecycleState;
use crate::util::no_interior_nul;

verus! {

/// Describes sending an alert that is visible to the user for a short
/// amount of time.
pub fn send_alert(state: &LifecycleState, message: String) -> (r: HostCall)
    requires
        state.is_initialized(),
        no_interior_nul(message@),
    ensures
        r == (HostCall::Alert { message }),
{
    HostCall::Alert { message }
}

} // verus!

//! Update management.

use vstd::prelude::*;

use crate::host::HostCall;
use crate::lifecycle::LifecycleState;
use crate::util::no_interior_nul;

verus! {

/// Describes requesting an update to be downloaded, **without** performing a
/// version check.
pub fn request_update(state: &LifecycleState, signature: i32, update_url: String) -> (r: HostCall)
    requires
        state.is_initialized(),
        no_interior_nul(update_url@),
    ensures
        r == (HostCall::RequestUpdate { signature, update_link: update_url }),
{
    HostCall::RequestUpdate { signature, update_link: update_url }
}

} // verus!

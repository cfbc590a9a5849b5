//! Data links: named shared-memory blocks kept up to date by the host.
//!
//! A data link is retrieved or created by identifier; the host answers with
//! a raw block that only the embedding layer can touch. Reads are volatile:
//! the host updates the block continuously and guarantees no atomicity
//! across fields.

use vstd::prelude::*;

use crate::host::HostCall;
use crate::lifecycle::LifecycleState;
use crate::util::no_interior_nul;

verus! {

/// Describes retrieving the shared resource with the given identifier.
pub fn get_resource(state: &LifecycleState, identifier: String) -> (r: HostCall)
    requires
        state.is_initialized(),
        no_interior_nul(identifier@),
    ensures
        r == (HostCall::DataLinkGet { identifier }),
{
    HostCall::DataLinkGet { identifier }
}

/// Describes creating a new shared resource of the given size in bytes
/// under the given identifier.
pub fn share_resource(state: &LifecycleState, identifier: String, resource_size: usize) -> (r:
    HostCall)
    requires
        state.is_initialized(),
        no_interior_nul(identifier@),
    ensures
        r == (HostCall::DataLinkShare { identifier, resource_size }),
{
    HostCall::DataLinkShare { identifier, resource_size }
}

} // verus!

//! Font loading.
//!
//! The host hands fonts to a receive callback, possibly again whenever the
//! font atlas is rebuilt, until the callback is released.

use vstd::prelude::*;

use crate::host::{HostCall, UnloadAction};
use crate::lifecycle::LifecycleState;
use crate::revertible::Revertible;
use crate::util::no_interior_nul;

verus! {

/// Describes registering a callback to receive the font with the given
/// identifier.
///
/// Returns the call to perform and a [`Revertible`] holding the matching
/// release.
pub fn get_font(state: &LifecycleState, identifier: String, callback: u64) -> (r: (
    HostCall,
    Revertible<UnloadAction>,
))
    requires
        state.is_initialized(),
        no_interior_nul(identifier@),
    ensures
        r.0 == (HostCall::FontGet { identifier: identifier, callback }),
        r.1.action() == (UnloadAction::FontRelease { identifier, callback }),
{
    let undo = UnloadAction::FontRelease { identifier: identifier.clone(), callback };
    let call = HostCall::FontGet { identifier, callback };
    (call, Revertible::new(undo))
}

/// Describes releasing a previously registered callback for the font with
/// the given identifier, for immediate execution by the embedding layer.
pub fn release_font(state: &LifecycleState, identifier: String, callback: u64) -> (r: UnloadAction)
    requires
        state.is_initialized(),
        no_interior_nul(identifier@),
    ensures
        r == (UnloadAction::FontRelease { identifier, callback }),
{
    UnloadAction::FontRelease { identifier, callback }
}

} // verus!

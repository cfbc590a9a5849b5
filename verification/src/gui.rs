//! Render callback registration.
//!
//! The host invokes render callbacks once per frame, in the fixed phase
//! order pre-render, render, post-render, options-render. Early host
//! interface revisions support a single callback per phase, so registration
//! is layered over a per-phase slot: registering a second callback for the
//! same phase replaces the first instead of silently conflicting with it.

use vstd::prelude::*;

use crate::host::{HostCall, UnloadAction};
use crate::lifecycle::LifecycleState;
use crate::revertible::Revertible;
use crate::util::no_interior_nul;

verus! {

/// Type of render callback, one per render phase.
#[derive(Debug, Clone, Copy, PartialEq, Eq, Structural)]
pub enum RenderType {
    /// Before the UI frame is initialized.
    PreRender,
    /// During the UI frame.
    Render,
    /// After the UI frame was ended.
    PostRender,
    /// During the UI frame, appended to the options window.
    OptionsRender,
}

/// The wire value of a render phase in the host's binary interface.
pub open spec fn spec_render_type_code(t: RenderType) -> u32 {
    match t {
        RenderType::PreRender => 0,
        RenderType::Render => 1,
        RenderType::PostRender => 2,
        RenderType::OptionsRender => 3,
    }
}

impl RenderType {
    /// Returns the wire value the host expects for this render phase.
    pub fn code(&self) -> (r: u32)
        ensures
            r == spec_render_type_code(*self),
    {
        match self {
            RenderType::PreRender => 0,
            RenderType::Render => 1,
            RenderType::PostRender => 2,
            RenderType::OptionsRender => 3,
        }
    }
}

/// The calls to perform for a render registration: deregister the callback
/// the phase's slot held before, if any, then register the new one.
#[derive(Debug, Clone, PartialEq, Eq)]
pub struct RenderUpdate {
    /// Callback to deregister first, displaced from the phase's slot.
    pub deregister_previous: Option<UnloadAction>,
    /// The registration call to perform.
    pub register: HostCall,
}

/// One callback slot per render phase.
///
/// Registering into an occupied slot replaces the previous callback, which
/// matches the host's single-callback-per-phase limitation explicitly.
pub struct RenderSlots {
    pre_render: Option<u64>,
    render: Option<u64>,
    post_render: Option<u64>,
    options_render: Option<u64>,
}

impl RenderSlots {
    /// The callback currently held by the slot of the given phase.
    pub closed spec fn slot(&self, t: RenderType) -> Option<u64> {
        match t {
            RenderType::PreRender => self.pre_render,
            RenderType::Render => self.render,
            RenderType::PostRender => self.post_render,
            RenderType::OptionsRender => self.options_render,
        }
    }

    /// Creates the four empty render slots.
    pub fn new() -> (r: Self)
        ensures
            forall|t: RenderType| r.slot(t) is None,
    {
        Self { pre_render: None, render: None, post_render: None, options_render: None }
    }

    /// Registers a render callback of the given [`RenderType`], replacing
    /// whatever callback the phase's slot held before.
    ///
    /// Returns the calls to perform and a [`Revertible`] holding the
    /// deregistration of the new callback.
    pub fn register_render(
        &mut self,
        state: &LifecycleState,
        render_type: RenderType,
        callback: u64,
    ) -> (r: (RenderUpdate, Revertible<UnloadAction>))
        requires
            state.is_initialized(),
        ensures
            final(self).slot(render_type) == Some(callback),
            forall|t: RenderType| t != render_type ==> final(self).slot(t) == old(self).slot(t),
            r.0.register == (HostCall::RenderRegister { render_type, callback }),
            r.0.deregister_previous == match old(self).slot(render_type) {
                Some(previous) => Some(UnloadAction::RenderDeregister { callback: previous }),
                None => None::<UnloadAction>,
            },
            r.1.action() == (UnloadAction::RenderDeregister { callback }),
    {
        let previous: Option<u64>;
        match render_type {
            RenderType::PreRender => {
                previous = self.pre_render;
                self.pre_render = Some(callback);
            },
            RenderType::Render => {
                previous = self.render;
                self.render = Some(callback);
            },
            RenderType::PostRender => {
                previous = self.post_render;
                self.post_render = Some(callback);
            },
            RenderType::OptionsRender => {
                previous = self.options_render;
                self.options_render = Some(callback);
            },
        }
        let deregister_previous = match previous {
            Some(previous) => Some(UnloadAction::RenderDeregister { callback: previous }),
            None => None,
        };
        let update = RenderUpdate {
            deregister_previous,
            register: HostCall::RenderRegister { render_type, callback },
        };
        (update, Revertible::new(UnloadAction::RenderDeregister { callback }))
    }

    /// Unregisters a previously registered render callback, clearing every
    /// slot that holds it.
    ///
    /// Returns the deregistration call to perform.
    pub fn unregister_render(&mut self, state: &LifecycleState, callback: u64) -> (r: UnloadAction)
        requires
            state.is_initialized(),
        ensures
            forall|t: RenderType|
                final(self).slot(t) == if old(self).slot(t) == Some(callback) {
                    None::<u64>
                } else {
                    old(self).slot(t)
                },
            r == (UnloadAction::RenderDeregister { callback }),
    {
        if let Some(held) = self.pre_render {
            if held == callback {
                self.pre_render = None;
            }
        }
        if let Some(held) = self.render {
            if held == callback {
                self.render = None;
            }
        }
        if let Some(held) = self.post_render {
            if held == callback {
                self.post_render = None;
            }
        }
        if let Some(held) = self.options_render {
            if held == callback {
                self.options_render = None;
            }
        }
        UnloadAction::RenderDeregister { callback }
    }
}

/// Describes registering a window name to get its visibility flag cleared
/// when escape is pressed. The flag is a token for the boolean the embedding
/// layer shares with the host.
pub fn register_close_on_escape(state: &LifecycleState, window_name: String, opened: u64) -> (r:
    HostCall)
    requires
        state.is_initialized(),
        no_interior_nul(window_name@),
    ensures
        r == (HostCall::UiRegisterCloseOnEscape { window_name, is_visible: opened }),
{
    HostCall::UiRegisterCloseOnEscape { window_name, is_visible: opened }
}

/// Describes deregistering a window name listening for the escape key.
pub fn deregister_close_on_escape(state: &LifecycleState, window_name: String) -> (r: HostCall)
    requires
        state.is_initialized(),
        no_interior_nul(window_name@),
    ensures
        r == (HostCall::UiDeregisterCloseOnEscape { window_name }),
{
    HostCall::UiDeregisterCloseOnEscape { window_name }
}

} // verus!

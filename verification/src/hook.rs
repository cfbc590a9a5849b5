//! Function hooking through the host's hooking entry points.
//!
//! The host reports the outcome of every hooking call as a status code. The
//! embedding layer performs the described calls and feeds the codes back;
//! the functions here decide what each outcome means and whether the next
//! call of a chain may be made.

use vstd::prelude::*;

use crate::host::HostCall;
use crate::lifecycle::LifecycleState;

verus! {

/// Status codes of the host's hooking entry points.
#[derive(Debug, Clone, Copy, PartialEq, Eq, Structural)]
pub enum HookStatus {
    /// Unknown error. Should not be returned.
    Unknown,
    /// Successful.
    Success,
    /// The hooking engine is already initialized.
    ErrorAlreadyInitialized,
    /// The hooking engine is not initialized yet, or already uninitialized.
    ErrorNotInitialized,
    /// The hook for the specified target function is already created.
    ErrorAlreadyCreated,
    /// The hook for the specified target function is not created yet.
    ErrorNotCreated,
    /// The hook for the specified target function is already enabled.
    ErrorEnabled,
    /// The hook for the specified target function is not enabled yet, or
    /// already disabled.
    ErrorDisabled,
    /// The specified pointer is invalid: it points to a non-allocated or
    /// non-executable region.
    ErrorNotExecutable,
    /// The specified target function cannot be hooked.
    ErrorUnsupportedFunction,
    /// Failed to allocate memory.
    ErrorMemoryAlloc,
    /// Failed to change the memory protection.
    ErrorMemoryProtect,
    /// The specified module is not loaded.
    ErrorModuleNotFound,
    /// The specified function is not found.
    ErrorFunctionNotFound,
}

/// The wire value of a hook status in the host's binary interface.
pub open spec fn spec_hook_status_code(status: HookStatus) -> i32 {
    match status {
        HookStatus::Unknown => -1i32,
        HookStatus::Success => 0,
        HookStatus::ErrorAlreadyInitialized => 1,
        HookStatus::ErrorNotInitialized => 2,
        HookStatus::ErrorAlreadyCreated => 3,
        HookStatus::ErrorNotCreated => 4,
        HookStatus::ErrorEnabled => 5,
        HookStatus::ErrorDisabled => 6,
        HookStatus::ErrorNotExecutable => 7,
        HookStatus::ErrorUnsupportedFunction => 8,
        HookStatus::ErrorMemoryAlloc => 9,
        HookStatus::ErrorMemoryProtect => 10,
        HookStatus::ErrorModuleNotFound => 11,
        HookStatus::ErrorFunctionNotFound => 12,
    }
}

impl HookStatus {
    /// Returns the wire value the host uses for this status.
    pub fn code(&self) -> (r: i32)
        ensures
            r == spec_hook_status_code(*self),
    {
        match self {
            HookStatus::Unknown => -1,
            HookStatus::Success => 0,
            HookStatus::ErrorAlreadyInitialized => 1,
            HookStatus::ErrorNotInitialized => 2,
            HookStatus::ErrorAlreadyCreated => 3,
            HookStatus::ErrorNotCreated => 4,
            HookStatus::ErrorEnabled => 5,
            HookStatus::ErrorDisabled => 6,
            HookStatus::ErrorNotExecutable => 7,
            HookStatus::ErrorUnsupportedFunction => 8,
            HookStatus::ErrorMemoryAlloc => 9,
            HookStatus::ErrorMemoryProtect => 10,
            HookStatus::ErrorModuleNotFound => 11,
            HookStatus::ErrorFunctionNotFound => 12,
        }
    }

    /// Decodes a wire value received from the host. Every value outside the
    /// defined range decodes to [`HookStatus::Unknown`].
    pub fn from_code(code: i32) -> (r: HookStatus)
        ensures
            0 <= code <= 12 ==> spec_hook_status_code(r) == code,
            !(0 <= code <= 12) ==> r == HookStatus::Unknown,
    {
        match code {
            0 => HookStatus::Success,
            1 => HookStatus::ErrorAlreadyInitialized,
            2 => HookStatus::ErrorNotInitialized,
            3 => HookStatus::ErrorAlreadyCreated,
            4 => HookStatus::ErrorNotCreated,
            5 => HookStatus::ErrorEnabled,
            6 => HookStatus::ErrorDisabled,
            7 => HookStatus::ErrorNotExecutable,
            8 => HookStatus::ErrorUnsupportedFunction,
            9 => HookStatus::ErrorMemoryAlloc,
            10 => HookStatus::ErrorMemoryProtect,
            11 => HookStatus::ErrorModuleNotFound,
            12 => HookStatus::ErrorFunctionNotFound,
            _ => HookStatus::Unknown,
        }
    }

    /// Checks if the status is [`HookStatus::Success`].
    pub fn is_ok(&self) -> (r: bool)
        ensures
            r == (*self == HookStatus::Success),
    {
        match self {
            HookStatus::Success => true,
            _ => false,
        }
    }

    /// Converts the status to a [`Result`].
    pub fn ok(self) -> (r: Result<(), Self>)
        ensures
            self == HookStatus::Success ==> r == Ok::<(), Self>(()),
            self != HookStatus::Success ==> r == Err::<(), Self>(self),
    {
        self.ok_then(())
    }

    /// Converts the status to a [`Result`] with a value.
    pub fn ok_then<T>(self, value: T) -> (r: Result<T, Self>)
        ensures
            self == HookStatus::Success ==> r == Ok::<T, Self>(value),
            self != HookStatus::Success ==> r == Err::<T, Self>(self),
    {
        match self {
            Self::Success => Ok(value),
            _ => Err(self),
        }
    }
}

/// What the host's hook-create entry point reported: its status, and on
/// success the trampoline used to call the original target function.
#[derive(Debug, Clone, Copy, PartialEq, Eq, Structural)]
pub struct HookCreateOutcome {
    /// The reported status code.
    pub status: HookStatus,
    /// Token of the trampoline function handed back on success.
    pub trampoline: u64,
}

/// Describes creating a hook for the target function, in disabled state.
pub fn create_hook_raw(state: &LifecycleState, target: u64, detour: u64) -> (r: HostCall)
    requires
        state.is_initialized(),
    ensures
        r == (HostCall::HookCreate { target, detour }),
{
    HostCall::HookCreate { target, detour }
}

/// Interprets the outcome of a hook-create call: the trampoline on success,
/// the specific reported status — not a generic error — otherwise.
pub fn hook_create_result(outcome: HookCreateOutcome) -> (r: Result<u64, HookStatus>)
    ensures
        outcome.status == HookStatus::Success ==> r == Ok::<u64, HookStatus>(outcome.trampoline),
        outcome.status != HookStatus::Success ==> r == Err::<u64, HookStatus>(outcome.status),
{
    outcome.status.ok_then(outcome.trampoline)
}

/// Describes enabling an already created hook.
pub fn enable_hook_raw(state: &LifecycleState, target: u64) -> (r: HostCall)
    requires
        state.is_initialized(),
    ensures
        r == (HostCall::HookEnable { target }),
{
    HostCall::HookEnable { target }
}

/// Describes disabling an already created hook.
pub fn disable_hook_raw(state: &LifecycleState, target: u64) -> (r: HostCall)
    requires
        state.is_initialized(),
    ensures
        r == (HostCall::HookDisable { target }),
{
    HostCall::HookDisable { target }
}

/// Describes removing an already created hook.
pub fn remove_hook_raw(state: &LifecycleState, target: u64) -> (r: HostCall)
    requires
        state.is_initialized(),
    ensures
        r == (HostCall::HookRemove { target }),
{
    HostCall::HookRemove { target }
}

/// The continuation of the create-and-enable chain after the create call.
#[derive(Debug, Clone, Copy, PartialEq, Eq, Structural)]
pub enum HookChain {
    /// The create succeeded: enable the hook on `target` next, then finish
    /// the chain with the enable call's status.
    EnableNext { target: u64, trampoline: u64 },
    /// The create failed with this status; the enable call is not made.
    Failed { status: HookStatus },
}

/// Decides the step after the create call of the create-and-enable helper:
/// enable is attempted exactly when the create succeeded, and a failed
/// create ends the chain with the create's own status.
pub fn create_hook_enabled_step(target: u64, create: HookCreateOutcome) -> (r: HookChain)
    ensures
        create.status == HookStatus::Success ==> r == (HookChain::EnableNext {
            target,
            trampoline: create.trampoline,
        }),
        create.status != HookStatus::Success ==> r == (HookChain::Failed { status: create.status }),
{
    if create.status.is_ok() {
        HookChain::EnableNext { target, trampoline: create.trampoline }
    } else {
        HookChain::Failed { status: create.status }
    }
}

/// Finishes the create-and-enable chain: the enable call's result is
/// returned instead of the create result — the trampoline on success, the
/// enable's own status otherwise.
pub fn create_hook_enabled_finish(enable_status: HookStatus, trampoline: u64) -> (r: Result<
    u64,
    HookStatus,
>)
    ensures
        enable_status == HookStatus::Success ==> r == Ok::<u64, HookStatus>(trampoline),
        enable_status != HookStatus::Success ==> r == Err::<u64, HookStatus>(enable_status),
{
    enable_status.ok_then(trampoline)
}

} // verus!

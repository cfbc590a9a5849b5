use nexus::hook::{
    create_hook_enabled_finish, create_hook_enabled_step, create_hook_raw, disable_hook_raw,
    enable_hook_raw, hook_create_result, remove_hook_raw, HookChain, HookCreateOutcome, HookStatus,
};
use nexus::host::HostCall;
use nexus::lifecycle::{ApiTable, LifecycleState};

fn initialized_state() -> LifecycleState {
    let mut state = LifecycleState::new();
    let table = ApiTable {
        imgui_context: 1,
        imgui_malloc: 2,
        imgui_free: 3,
    };
    assert_eq!(state.initialize(table), Ok(()));
    state
}

// A stub host whose hook-create entry point always answers "already created".
fn stub_create_already_created(_target: u64, _detour: u64) -> HookCreateOutcome {
    HookCreateOutcome {
        status: HookStatus::ErrorAlreadyCreated,
        trampoline: 0,
    }
}

#[test]
fn hook_create_yields_the_specific_status() {
    let state = initialized_state();
    // load happened; the addon asks for a hook on target 10 with detour 20
    let call = create_hook_raw(&state, 10, 20);
    assert_eq!(call, HostCall::HookCreate { target: 10, detour: 20 });
    // the stub host answers "already created"
    let outcome = stub_create_already_created(10, 20);
    // the wrapper yields that specific status, not a generic error
    assert_eq!(
        hook_create_result(outcome),
        Err(HookStatus::ErrorAlreadyCreated)
    );
    // and the plain wrapper does not chain into hook-enable: the caller
    // checks the result itself
    assert_eq!(
        create_hook_enabled_step(10, outcome),
        HookChain::Failed {
            status: HookStatus::ErrorAlreadyCreated,
        }
    );
}

#[test]
fn create_and_enable_helper_returns_enable_result() {
    let state = initialized_state();
    let call = create_hook_raw(&state, 10, 20);
    assert_eq!(call, HostCall::HookCreate { target: 10, detour: 20 });
    // the host creates the hook and hands back a trampoline
    let outcome = HookCreateOutcome {
        status: HookStatus::Success,
        trampoline: 77,
    };
    // the helper attempts enable immediately after the successful create
    let step = create_hook_enabled_step(10, outcome);
    assert_eq!(
        step,
        HookChain::EnableNext {
            target: 10,
            trampoline: 77,
        }
    );
    // ... and returns the enable call's result instead of the create result
    assert_eq!(
        create_hook_enabled_finish(HookStatus::ErrorEnabled, 77),
        Err(HookStatus::ErrorEnabled)
    );
    assert_eq!(
        create_hook_enabled_finish(HookStatus::Success, 77),
        Ok(77)
    );
}

#[test]
fn hook_status_conversions() {
    assert!(HookStatus::Success.is_ok());
    assert!(!HookStatus::Unknown.is_ok());
    assert_eq!(HookStatus::Success.ok(), Ok(()));
    assert_eq!(
        HookStatus::ErrorNotCreated.ok(),
        Err(HookStatus::ErrorNotCreated)
    );
    assert_eq!(HookStatus::Success.ok_then(5), Ok(5));
    assert_eq!(
        HookStatus::ErrorModuleNotFound.ok_then(5),
        Err(HookStatus::ErrorModuleNotFound)
    );
}

#[test]
fn hook_status_codes_roundtrip() {
    let statuses = [
        (HookStatus::Unknown, -1),
        (HookStatus::Success, 0),
        (HookStatus::ErrorAlreadyInitialized, 1),
        (HookStatus::ErrorNotInitialized, 2),
        (HookStatus::ErrorAlreadyCreated, 3),
        (HookStatus::ErrorNotCreated, 4),
        (HookStatus::ErrorEnabled, 5),
        (HookStatus::ErrorDisabled, 6),
        (HookStatus::ErrorNotExecutable, 7),
        (HookStatus::ErrorUnsupportedFunction, 8),
        (HookStatus::ErrorMemoryAlloc, 9),
        (HookStatus::ErrorMemoryProtect, 10),
        (HookStatus::ErrorModuleNotFound, 11),
        (HookStatus::ErrorFunctionNotFound, 12),
    ];
    for (status, code) in statuses {
        assert_eq!(status.code(), code);
        if code >= 0 {
            assert_eq!(HookStatus::from_code(code), status);
        }
    }
    // every unassigned wire value decodes to the unknown status
    assert_eq!(HookStatus::from_code(-1), HookStatus::Unknown);
    assert_eq!(HookStatus::from_code(13), HookStatus::Unknown);
    assert_eq!(HookStatus::from_code(-7), HookStatus::Unknown);
}

#[test]
fn hook_request_builders() {
    let state = initialized_state();
    assert_eq!(
        enable_hook_raw(&state, 4),
        HostCall::HookEnable { target: 4 }
    );
    assert_eq!(
        disable_hook_raw(&state, 4),
        HostCall::HookDisable { target: 4 }
    );
    assert_eq!(
        remove_hook_raw(&state, 4),
        HostCall::HookRemove { target: 4 }
    );
}

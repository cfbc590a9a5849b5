use nexus::host::UnloadAction;
use nexus::lifecycle::{next_unload_action, on_unload, ApiTable, InitError, LifecycleState};

fn table(context: u64) -> ApiTable {
    ApiTable {
        imgui_context: context,
        imgui_malloc: 100,
        imgui_free: 200,
    }
}

fn action(token: u64) -> UnloadAction {
    UnloadAction::Custom { token }
}

#[test]
fn initialize_succeeds_once() {
    let mut state = LifecycleState::new();
    assert_eq!(state.initialize(table(7)), Ok(()));
    assert_eq!(*state.addon_api(), table(7));
    assert_eq!(state.render_context_handle(), 7);
}

#[test]
fn initialize_twice_fails_and_keeps_first_table() {
    let mut state = LifecycleState::new();
    assert_eq!(state.initialize(table(7)), Ok(()));
    // a second call with a different table fails
    assert_eq!(
        state.initialize(table(8)),
        Err(InitError::AlreadyInitialized)
    );
    // a second call with the same table fails as well
    assert_eq!(
        state.initialize(table(7)),
        Err(InitError::AlreadyInitialized)
    );
    // the first stored table is untouched
    assert_eq!(*state.addon_api(), table(7));
    assert_eq!(state.render_context_handle(), 7);
}

#[test]
fn unload_drains_in_fifo_order() {
    let mut state = LifecycleState::new();
    assert_eq!(state.initialize(table(1)), Ok(()));
    on_unload(&mut state, action(1));
    on_unload(&mut state, action(2));
    on_unload(&mut state, action(3));
    let drained = state.run_unload();
    assert_eq!(drained, vec![action(1), action(2), action(3)]);
    // the queue was swapped for the empty one
    assert_eq!(state.run_unload(), vec![]);
}

#[test]
fn empty_unload_is_idempotent() {
    let mut state = LifecycleState::new();
    assert_eq!(state.run_unload(), vec![]);
    assert_eq!(state.run_unload(), vec![]);
    assert_eq!(state.initialize(table(1)), Ok(()));
    assert_eq!(state.run_unload(), vec![]);
    assert_eq!(*state.addon_api(), table(1));
}

#[test]
fn unload_queue_survives_initialization() {
    let mut state = LifecycleState::new();
    on_unload(&mut state, action(9));
    assert_eq!(state.initialize(table(1)), Ok(()));
    assert_eq!(state.run_unload(), vec![action(9)]);
}

#[test]
fn unload_resilient_after_panic() {
    // the executor drain: action B "panics", but A and C still run
    let mut state = LifecycleState::new();
    assert_eq!(state.initialize(table(1)), Ok(()));
    on_unload(&mut state, action(1)); // A
    on_unload(&mut state, action(2)); // B
    on_unload(&mut state, action(3)); // C
    let mut pending = state.run_unload();
    let mut executed = Vec::new();

    let first = next_unload_action(&mut pending, false);
    assert_eq!(first, Some(action(1)));
    executed.push(first.unwrap()); // A runs normally

    let second = next_unload_action(&mut pending, false);
    assert_eq!(second, Some(action(2)));
    executed.push(second.unwrap()); // B runs and panics; the panic is caught

    // the next step is handed out although the previous action panicked
    let third = next_unload_action(&mut pending, true);
    assert_eq!(third, Some(action(3)));
    executed.push(third.unwrap()); // C still runs

    assert_eq!(next_unload_action(&mut pending, false), None);
    assert_eq!(executed, vec![action(1), action(2), action(3)]);
}

#[test]
fn next_unload_action_ignores_previous_outcome() {
    let mut with_panic = vec![action(5), action(6)];
    let mut without_panic = vec![action(5), action(6)];
    assert_eq!(
        next_unload_action(&mut with_panic, true),
        next_unload_action(&mut without_panic, false)
    );
    assert_eq!(with_panic, without_panic);
}

use nexus::event::{
    addon_loaded, addon_unloaded, event_raise, event_raise_notification, event_subscribe_unknown,
    event_unsubscribe, window_resized, Event, EventRegistry,
};
use nexus::host::{HostCall, UnloadAction};
use nexus::lifecycle::{ApiTable, LifecycleState};

fn initialized_state() -> LifecycleState {
    let mut state = LifecycleState::new();
    let table = ApiTable {
        imgui_context: 1,
        imgui_malloc: 2,
        imgui_free: 3,
    };
    assert_eq!(state.initialize(table), Ok(()));
    state
}

// The callback the embedding layer would register for token 7: records the
// payload it is invoked with.
fn typed_callback(payload: Option<&i32>, received: &mut Vec<Option<i32>>) {
    received.push(payload.copied());
}

#[test]
fn typed_subscribe_raise_roundtrip() {
    let mut state = initialized_state();
    let mut registry = EventRegistry::new();
    let event: Event<i32> = Event::new("EV_TEST".to_string());

    let (call, revertible) = event.subscribe(&state, &mut registry, 7);
    assert_eq!(
        call,
        HostCall::EventSubscribe {
            identifier: "EV_TEST".to_string(),
            callback: 7,
        }
    );

    // raising EV_TEST with payload 42: the raise call carries the payload
    // beside it; the host fans the event out and the trampoline looks up
    // the addon's subscriptions for the identifier
    let value = 42;
    let (raise, payload) = event_raise(&state, "EV_TEST".to_string(), &value);
    assert_eq!(
        raise,
        HostCall::EventRaise {
            identifier: "EV_TEST".to_string(),
        }
    );
    let mut received: Vec<Option<i32>> = Vec::new();
    for target in registry.targets(&"EV_TEST".to_string()) {
        assert_eq!(target, 7);
        typed_callback(Some(payload), &mut received);
    }
    // the subscriber was invoked exactly once, with the raised payload
    assert_eq!(received, vec![Some(42)]);

    // raising EV_TEST as a notification invokes it with no payload
    let notify = event_raise_notification(&state, "EV_TEST".to_string());
    assert_eq!(
        notify,
        HostCall::EventRaiseNotification {
            identifier: "EV_TEST".to_string(),
        }
    );
    let mut received: Vec<Option<i32>> = Vec::new();
    for target in registry.targets(&"EV_TEST".to_string()) {
        assert_eq!(target, 7);
        typed_callback(None, &mut received);
    }
    assert_eq!(received, vec![None]);

    // reverting the subscription removes it again
    assert_eq!(
        revertible.revert(),
        UnloadAction::EventUnsubscribe {
            identifier: "EV_TEST".to_string(),
            callback: 7,
        }
    );
}

#[test]
fn raise_reaches_only_matching_subscriptions() {
    let state = initialized_state();
    let mut registry = EventRegistry::new();
    event_subscribe_unknown(&state, &mut registry, "EV_A".to_string(), 1);
    event_subscribe_unknown(&state, &mut registry, "EV_B".to_string(), 2);
    event_subscribe_unknown(&state, &mut registry, "EV_A".to_string(), 3);
    assert_eq!(registry.targets(&"EV_A".to_string()), vec![1, 3]);
    assert_eq!(registry.targets(&"EV_B".to_string()), vec![2]);
    assert_eq!(registry.targets(&"EV_C".to_string()), vec![]);
}

#[test]
fn unsubscribe_removes_the_subscription() {
    let state = initialized_state();
    let mut registry = EventRegistry::new();
    event_subscribe_unknown(&state, &mut registry, "EV_A".to_string(), 1);
    event_subscribe_unknown(&state, &mut registry, "EV_A".to_string(), 2);
    let undo = event_unsubscribe(&state, &mut registry, "EV_A".to_string(), 1);
    assert_eq!(
        undo,
        UnloadAction::EventUnsubscribe {
            identifier: "EV_A".to_string(),
            callback: 1,
        }
    );
    assert_eq!(registry.targets(&"EV_A".to_string()), vec![2]);
    // unsubscribing an absent pair changes nothing
    event_unsubscribe(&state, &mut registry, "EV_A".to_string(), 1);
    assert_eq!(registry.targets(&"EV_A".to_string()), vec![2]);
}

#[test]
fn well_known_event_identifiers() {
    assert_eq!(addon_loaded().identifier, "EV_ADDON_LOADED");
    assert_eq!(addon_unloaded().identifier, "EV_ADDON_UNLOADED");
    assert_eq!(window_resized().identifier, "EV_WINDOW_RESIZED");
}

//! Event system.
//!
//! The host's event bus is untyped: an event is a string identifier together
//! with a raw payload pointer fanned out synchronously to every subscribed
//! callback. The library keeps its own registry of the addon's
//! subscriptions — identifier paired with the token of the trampoline the
//! embedding layer registered — so the trampoline can look up which
//! callbacks an incoming event reaches, and so every subscription has a
//! matching undo.
//!
//! The pairing of an identifier with its payload type is a convention the
//! host does not check: it transmits no type tag. [`Event`] carries the
//! payload type at compile time so a subscription and a raise of the same
//! binding cannot disagree; pairing the right type with a given identifier
//! remains the caller's obligation.

use vstd::prelude::*;

use crate::host::{HostCall, UnloadAction};
use crate::lifecycle::LifecycleState;
use crate::revertible::Revertible;
use crate::util::no_interior_nul;

verus! {

/// An event identifier paired with its payload type.
///
/// Carries no runtime state besides the identifier; the payload type exists
/// only at compile time.
#[derive(Debug)]
#[verifier::reject_recursive_types(T)]
pub struct Event<T> {
    /// The event identifier.
    pub identifier: String,
    /// Marker tying the payload type to the identifier.
    pub phantom: core::marker::PhantomData<T>,
}

/// One subscription of the addon: an event identifier together with the
/// token of the trampoline callback registered for it.
#[derive(Debug, Clone, PartialEq, Eq)]
pub struct Subscription {
    /// The event identifier subscribed to.
    pub identifier: String,
    /// Token of the callback registered with the host.
    pub callback: u64,
}

impl View for Subscription {
    type V = (Seq<char>, u64);

    open spec fn view(&self) -> (Seq<char>, u64) {
        (self.identifier@, self.callback)
    }
}

/// The callbacks a raise of `identifier` reaches, in subscription order:
/// one entry per matching subscription.
pub open spec fn targets_of(subs: Seq<(Seq<char>, u64)>, identifier: Seq<char>) -> Seq<u64>
    decreases subs.len(),
{
    if subs.len() == 0 {
        Seq::empty()
    } else {
        let rest = targets_of(subs.drop_last(), identifier);
        if subs.last().0 == identifier {
            rest.push(subs.last().1)
        } else {
            rest
        }
    }
}

/// The subscriptions left after removing every entry matching the
/// identifier and callback, keeping the order of the rest.
pub open spec fn without_subscription(
    subs: Seq<(Seq<char>, u64)>,
    identifier: Seq<char>,
    callback: u64,
) -> Seq<(Seq<char>, u64)>
    decreases subs.len(),
{
    if subs.len() == 0 {
        Seq::empty()
    } else {
        let rest = without_subscription(subs.drop_last(), identifier, callback);
        if subs.last().0 == identifier && subs.last().1 == callback {
            rest
        } else {
            rest.push(subs.last())
        }
    }
}

/// The addon's own registry of event subscriptions.
pub struct EventRegistry {
    subscriptions: Vec<Subscription>,
}

impl EventRegistry {
    /// The registered subscriptions, oldest first, as identifier-callback
    /// pairs.
    pub closed spec fn subs(&self) -> Seq<(Seq<char>, u64)> {
        Seq::new(self.subscriptions@.len(), |i: int| self.subscriptions@[i]@)
    }

    /// Creates an empty registry.
    pub fn new() -> (r: Self)
        ensures
            r.subs() == Seq::<(Seq<char>, u64)>::empty(),
    {
        let r = Self { subscriptions: Vec::new() };
        proof {
            assert(r.subs() =~= Seq::<(Seq<char>, u64)>::empty());
        }
        r
    }

    /// Records a subscription.
    fn record(&mut self, identifier: String, callback: u64)
        ensures
            final(self).subs() == old(self).subs().push((identifier@, callback)),
    {
        self.subscriptions.push(Subscription { identifier, callback });
        proof {
            assert(self.subs() =~= old(self).subs().push((identifier@, callback)));
        }
    }

    /// The callbacks to invoke when an event with this identifier arrives,
    /// in subscription order.
    ///
    /// The trampoline of the embedding layer calls this to fan an incoming
    /// event out to the addon's typed callbacks.
    pub fn targets(&self, identifier: &String) -> (r: Vec<u64>)
        ensures
            r@ == targets_of(self.subs(), identifier@),
    {
        let mut found: Vec<u64> = Vec::new();
        let len: usize = self.subscriptions.len();
        let mut i: usize = 0;
        while i < len
            invariant
                0 <= i <= len,
                len == self.subscriptions@.len(),
                found@ == targets_of(self.subs().take(i as int), identifier@),
            decreases len - i,
        {
            proof {
                lemma_targets_push(self.subs().take(i as int), self.subs()[i as int], identifier@);
                assert(self.subs().take(i + 1).drop_last() =~= self.subs().take(i as int));
                assert(self.subs().take(i + 1).last() == self.subs()[i as int]);
            }
            let subscription = &self.subscriptions[i];
            if subscription.identifier == *identifier {
                found.push(subscription.callback);
            }
            i = i + 1;
        }
        proof {
            assert(self.subs().take(len as int) =~= self.subs());
        }
        found
    }

    /// Removes every subscription matching the identifier and callback.
    fn remove(&mut self, identifier: &String, callback: u64)
        ensures
            final(self).subs() == without_subscription(old(self).subs(), identifier@, callback),
    {
        let mut kept: Vec<Subscription> = Vec::new();
        let len: usize = self.subscriptions.len();
        let mut i: usize = 0;
        while i < len
            invariant
                0 <= i <= len,
                len == self.subscriptions@.len(),
                self.subscriptions@ == old(self).subscriptions@,
                Seq::new(kept@.len(), |j: int| kept@[j]@) == without_subscription(
                    old(self).subs().take(i as int),
                    identifier@,
                    callback,
                ),
            decreases len - i,
        {
            proof {
                lemma_without_push(
                    old(self).subs().take(i as int),
                    old(self).subs()[i as int],
                    identifier@,
                    callback,
                );
                assert(old(self).subs().take(i + 1).drop_last() =~= old(self).subs().take(i as int));
                assert(old(self).subs().take(i + 1).last() == old(self).subs()[i as int]);
            }
            let subscription = &self.subscriptions[i];
            if !(subscription.identifier == *identifier && subscription.callback == callback) {
                let ghost before = Seq::new(kept@.len(), |j: int| kept@[j]@);
                kept.push(
                    Subscription {
                        identifier: subscription.identifier.clone(),
                        callback: subscription.callback,
                    },
                );
                proof {
                    assert(Seq::new(kept@.len(), |j: int| kept@[j]@) =~= before.push(
                        old(self).subs()[i as int],
                    ));
                }
            }
            i = i + 1;
        }
        proof {
            assert(old(self).subs().take(len as int) =~= old(self).subs());
        }
        self.subscriptions = kept;
    }
}

/// Appending a subscription appends exactly one invocation of its callback
/// to what a raise of that identifier reaches, and leaves raises of every
/// other identifier unchanged.
pub proof fn lemma_subscribe_adds_one_target(
    subs: Seq<(Seq<char>, u64)>,
    identifier: Seq<char>,
    callback: u64,
    raised: Seq<char>,
)
    ensures
        raised == identifier ==> targets_of(subs.push((identifier, callback)), raised)
            == targets_of(subs, raised).push(callback),
        raised != identifier ==> targets_of(subs.push((identifier, callback)), raised)
            == targets_of(subs, raised),
{
    lemma_targets_push(subs, (identifier, callback), raised);
}

/// After removing a subscription, a raise of its identifier no longer
/// reaches its callback at all.
pub proof fn lemma_unsubscribed_not_targeted(
    subs: Seq<(Seq<char>, u64)>,
    identifier: Seq<char>,
    callback: u64,
)
    ensures
        !targets_of(without_subscription(subs, identifier, callback), identifier).contains(
            callback,
        ),
    decreases subs.len(),
{
    if subs.len() > 0 {
        lemma_unsubscribed_not_targeted(subs.drop_last(), identifier, callback);
        let rest = without_subscription(subs.drop_last(), identifier, callback);
        if !(subs.last().0 == identifier && subs.last().1 == callback) {
            lemma_targets_push(rest, subs.last(), identifier);
        }
    }
}

proof fn lemma_targets_push(subs: Seq<(Seq<char>, u64)>, entry: (Seq<char>, u64), raised: Seq<char>)
    ensures
        targets_of(subs.push(entry), raised) == if entry.0 == raised {
            targets_of(subs, raised).push(entry.1)
        } else {
            targets_of(subs, raised)
        },
{
    assert(subs.push(entry).drop_last() =~= subs);
    assert(subs.push(entry).last() == entry);
}

proof fn lemma_without_push(
    subs: Seq<(Seq<char>, u64)>,
    entry: (Seq<char>, u64),
    identifier: Seq<char>,
    callback: u64,
)
    ensures
        without_subscription(subs.push(entry), identifier, callback) == if entry.0 == identifier
            && entry.1 == callback {
            without_subscription(subs, identifier, callback)
        } else {
            without_subscription(subs, identifier, callback).push(entry)
        },
{
    assert(subs.push(entry).drop_last() =~= subs);
    assert(subs.push(entry).last() == entry);
}

impl<T> Event<T> {
    /// Creates a new event identifier and payload type pair.
    ///
    /// The caller asserts that events with this identifier always carry a
    /// payload of type `T`; the host cannot check this.
    pub fn new(identifier: String) -> (r: Self)
        ensures
            r.identifier == identifier,
    {
        Self { identifier, phantom: core::marker::PhantomData }
    }

    /// Subscribes to the event.
    ///
    /// Returns the subscribe call to perform and a [`Revertible`] holding
    /// the matching unsubscribe.
    pub fn subscribe(&self, state: &LifecycleState, registry: &mut EventRegistry, callback: u64)
        -> (r: (HostCall, Revertible<UnloadAction>))
        requires
            state.is_initialized(),
            no_interior_nul(self.identifier@),
        ensures
            final(registry).subs() == old(registry).subs().push((self.identifier@, callback)),
            r.0 == (HostCall::EventSubscribe { identifier: self.identifier, callback }),
            r.1.action() == (UnloadAction::EventUnsubscribe {
                identifier: self.identifier,
                callback,
            }),
    {
        event_subscribe_typed(state, registry, self, callback)
    }
}

/// The event the host raises when an addon finished loading. Its payload
/// is the loaded addon's signature.
pub fn addon_loaded() -> (r: Event<i32>)
    ensures
        r.identifier@ == "EV_ADDON_LOADED"@,
{
    Event::new("EV_ADDON_LOADED".to_owned())
}

/// The event the host raises when an addon was unloaded. Its payload is the
/// unloaded addon's signature.
pub fn addon_unloaded() -> (r: Event<i32>)
    ensures
        r.identifier@ == "EV_ADDON_UNLOADED"@,
{
    Event::new("EV_ADDON_UNLOADED".to_owned())
}

/// The event the host raises when the game window was resized. It carries
/// no payload.
pub fn window_resized() -> (r: Event<()>)
    ensures
        r.identifier@ == "EV_WINDOW_RESIZED"@,
{
    Event::new("EV_WINDOW_RESIZED".to_owned())
}

/// Subscribes a raw callback token to an event with an unknown payload.
///
/// Returns the subscribe call to perform and a [`Revertible`] holding the
/// matching unsubscribe.
pub fn event_subscribe_unknown(
    state: &LifecycleState,
    registry: &mut EventRegistry,
    identifier: String,
    callback: u64,
) -> (r: (HostCall, Revertible<UnloadAction>))
    requires
        state.is_initialized(),
        no_interior_nul(identifier@),
    ensures
        final(registry).subs() == old(registry).subs().push((identifier@, callback)),
        r.0 == (HostCall::EventSubscribe { identifier: identifier, callback }),
        r.1.action() == (UnloadAction::EventUnsubscribe { identifier, callback }),
{
    let undo = UnloadAction::EventUnsubscribe { identifier: identifier.clone(), callback };
    let call = HostCall::EventSubscribe { identifier: identifier.clone(), callback };
    registry.record(identifier, callback);
    (call, Revertible::new(undo))
}

/// Subscribes a callback token to an event with a typed payload.
///
/// The identifier of the event must always come with a payload of the
/// event's type; this is the caller's obligation, the host checks nothing.
///
/// Returns the subscribe call to perform and a [`Revertible`] holding the
/// matching unsubscribe.
pub fn event_subscribe_typed<T>(
    state: &LifecycleState,
    registry: &mut EventRegistry,
    event: &Event<T>,
    callback: u64,
) -> (r: (HostCall, Revertible<UnloadAction>))
    requires
        state.is_initialized(),
        no_interior_nul(event.identifier@),
    ensures
        final(registry).subs() == old(registry).subs().push((event.identifier@, callback)),
        r.0 == (HostCall::EventSubscribe { identifier: event.identifier, callback }),
        r.1.action() == (UnloadAction::EventUnsubscribe { identifier: event.identifier, callback }),
{
    event_subscribe_unknown(state, registry, event.identifier.clone(), callback)
}

/// Unsubscribes a previously registered event callback, both from the
/// registry and — through the returned call — from the host.
pub fn event_unsubscribe(
    state: &LifecycleState,
    registry: &mut EventRegistry,
    identifier: String,
    callback: u64,
) -> (r: UnloadAction)
    requires
        state.is_initialized(),
        no_interior_nul(identifier@),
    ensures
        final(registry).subs() == without_subscription(old(registry).subs(), identifier@, callback),
        r == (UnloadAction::EventUnsubscribe { identifier, callback }),
{
    registry.remove(&identifier, callback);
    UnloadAction::EventUnsubscribe { identifier, callback }
}

/// Describes raising an event to all subscribing addons.
///
/// Returns the raise call together with the payload to pass along with it:
/// the embedding layer performs the call handing the host exactly the
/// returned payload, which must stay valid for the duration of the
/// synchronous dispatch — the host does not retain it. The identifier must
/// be associated with payloads of type `T`; the host checks nothing.
pub fn event_raise<'a, T>(state: &LifecycleState, identifier: String, event_data: &'a T) -> (r: (
    HostCall,
    &'a T,
))
    requires
        state.is_initialized(),
        no_interior_nul(identifier@),
    ensures
        r.0 == (HostCall::EventRaise { identifier }),
        r.1 == event_data,
{
    (HostCall::EventRaise { identifier }, event_data)
}

/// Describes raising an event without payload to all subscribing addons.
pub fn event_raise_notification(state: &LifecycleState, identifier: String) -> (r: HostCall)
    requires
        state.is_initialized(),
        no_interior_nul(identifier@),
    ensures
        r == (HostCall::EventRaiseNotification { identifier }),
{
    HostCall::EventRaiseNotification { identifier }
}

/// Describes raising an event for one specific subscribing addon.
///
/// As with [`event_raise`], the returned payload accompanies the call and is
/// what the embedding layer hands the host.
pub fn event_raise_targeted<'a, T>(
    state: &LifecycleState,
    signature: i32,
    identifier: String,
    event_data: &'a T,
) -> (r: (HostCall, &'a T))
    requires
        state.is_initialized(),
        no_interior_nul(identifier@),
    ensures
        r.0 == (HostCall::EventRaiseTargeted { signature, identifier }),
        r.1 == event_data,
{
    (HostCall::EventRaiseTargeted { signature, identifier }, event_data)
}

/// Describes raising an event without payload for one specific subscribing
/// addon.
pub fn event_raise_notification_targeted(
    state: &LifecycleState,
    signature: i32,
    identifier: String,
) -> (r: HostCall)
    requires
        state.is_initialized(),
        no_interior_nul(identifier@),
    ensures
        r == (HostCall::EventRaiseNotificationTargeted { signature, identifier }),
{
    HostCall::EventRaiseNotificationTargeted { signature, identifier }
}

} // verus!

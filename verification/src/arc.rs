//! Combat-log bridge events.
//!
//! A combat-log companion addon raises events about player agents joining,
//! leaving or being targeted. Their payload is a fixed binary record with
//! null-terminated name buffers and flag words; the functions here decode
//! the plain values the embedding layer hands over.

use vstd::prelude::*;

use vstd::array::array_as_slice;
use vstd::utf8::{encode_utf8, valid_utf8};

use crate::event::Event;
use crate::util::{cstr_prefix, cstr_prefix_bytes, string_from_utf8_lossy, utf8_lossy};

verus! {

/// An agent update of the combat-log bridge, as laid out in its event
/// payload: fixed-size null-terminated name buffers, plain numeric fields,
/// and flag words.
#[derive(Debug, Clone, Copy, PartialEq, Eq)]
pub struct AgentUpdate {
    /// Account name buffer, null-terminated; empty when not present.
    pub account: [u8; 64],
    /// Character name buffer, null-terminated.
    pub character: [u8; 64],
    /// Combat-log id of the agent.
    pub id: usize,
    /// Instance id of the agent.
    pub instance_id: usize,
    /// Whether the agent has been added (non-zero) or removed.
    pub added: u32,
    /// Whether the agent is the new target (non-zero).
    pub target: u32,
    /// Whether the agent is the local player (non-zero).
    pub is_self: u32,
    /// Agent profession.
    pub prof: u32,
    /// Agent elite specialization.
    pub elite: u32,
    /// Agent team.
    pub team: u16,
    /// Agent subgroup.
    pub subgroup: u16,
}

impl AgentUpdate {
    /// The account name of the agent: the name buffer up to its first nul,
    /// decoded lossily.
    pub fn account(&self) -> (r: String)
        ensures
            r@ == utf8_lossy(cstr_prefix(self.account@)),
            valid_utf8(cstr_prefix(self.account@)) ==> encode_utf8(r@) == cstr_prefix(
                self.account@,
            ),
    {
        let prefix = cstr_prefix_bytes(array_as_slice(&self.account));
        string_from_utf8_lossy(prefix.as_slice())
    }

    /// The character name of the agent: the name buffer up to its first nul,
    /// decoded lossily.
    pub fn character(&self) -> (r: String)
        ensures
            r@ == utf8_lossy(cstr_prefix(self.character@)),
            valid_utf8(cstr_prefix(self.character@)) ==> encode_utf8(r@) == cstr_prefix(
                self.character@,
            ),
    {
        let prefix = cstr_prefix_bytes(array_as_slice(&self.character));
        string_from_utf8_lossy(prefix.as_slice())
    }

    /// Whether the agent has been added or removed.
    pub fn is_added(&self) -> (r: bool)
        ensures
            r == (self.added != 0),
    {
        self.added != 0
    }

    /// Whether the agent is the new target.
    pub fn is_target(&self) -> (r: bool)
        ensures
            r == (self.target != 0),
    {
        self.target != 0
    }

    /// Whether the agent is the local player.
    pub fn is_self(&self) -> (r: bool)
        ensures
            r == (self.is_self != 0),
    {
        self.is_self != 0
    }
}

/// The bridge event raised with the local player agent on map load.
pub fn self_join() -> (r: Event<AgentUpdate>)
    ensures
        r.identifier@ == "EV_ARCDPS_SELF_JOIN"@,
{
    Event::new("EV_ARCDPS_SELF_JOIN".to_owned())
}

/// The bridge event raised with the local player agent when changing
/// instance or leaving a party or squad.
pub fn self_leave() -> (r: Event<AgentUpdate>)
    ensures
        r.identifier@ == "EV_ARCDPS_SELF_LEAVE"@,
{
    Event::new("EV_ARCDPS_SELF_LEAVE".to_owned())
}

/// The bridge event raised with an allied player agent joining the party or
/// squad, or joining the instance while in it.
pub fn squad_join() -> (r: Event<AgentUpdate>)
    ensures
        r.identifier@ == "EV_ARCDPS_SQUAD_JOIN"@,
{
    Event::new("EV_ARCDPS_SQUAD_JOIN".to_owned())
}

/// The bridge event raised with an allied player agent leaving the instance
/// or the party or squad.
pub fn squad_leave() -> (r: Event<AgentUpdate>)
    ensures
        r.identifier@ == "EV_ARCDPS_SQUAD_LEAVE"@,
{
    Event::new("EV_ARCDPS_SQUAD_LEAVE".to_owned())
}

/// The bridge event raised with the agent the player targeted.
pub fn target_changed() -> (r: Event<AgentUpdate>)
    ensures
        r.identifier@ == "EV_ARCDPS_TARGET_CHANGED"@,
{
    Event::new("EV_ARCDPS_TARGET_CHANGED".to_owned())
}

} // verus!

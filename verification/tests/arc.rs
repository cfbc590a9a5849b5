use nexus::arc::{self_join, self_leave, squad_join, squad_leave, target_changed, AgentUpdate};

fn agent_buffer(name: &str) -> [u8; 64] {
    let mut buffer = [0u8; 64];
    for (i, b) in name.as_bytes().iter().enumerate() {
        buffer[i] = *b;
    }
    buffer
}

#[test]
fn agent_update_names_and_flags() {
    let agent = AgentUpdate {
        account: agent_buffer(":Knight.1234"),
        character: agent_buffer("Good Knight"),
        id: 2000,
        instance_id: 17,
        added: 1,
        target: 0,
        is_self: 1,
        prof: 4,
        elite: 62,
        team: 189,
        subgroup: 3,
    };
    assert_eq!(agent.account(), ":Knight.1234");
    assert_eq!(agent.character(), "Good Knight");
    assert!(agent.is_added());
    assert!(!agent.is_target());
    assert!(agent.is_self());
    // any non-zero flag word counts as set
    let removed = AgentUpdate { added: 0, target: 2, is_self: 0, ..agent };
    assert!(!removed.is_added());
    assert!(removed.is_target());
    assert!(!removed.is_self());
    // an absent account name reads as the empty string
    let unnamed = AgentUpdate { account: agent_buffer(""), ..agent };
    assert_eq!(unnamed.account(), "");
}

#[test]
fn bridge_event_identifiers() {
    assert_eq!(self_join().identifier, "EV_ARCDPS_SELF_JOIN");
    assert_eq!(self_leave().identifier, "EV_ARCDPS_SELF_LEAVE");
    assert_eq!(squad_join().identifier, "EV_ARCDPS_SQUAD_JOIN");
    assert_eq!(squad_leave().identifier, "EV_ARCDPS_SQUAD_LEAVE");
    assert_eq!(target_changed().identifier, "EV_ARCDPS_TARGET_CHANGED");
}

use nexus::rtapi::{
    group_member_joined, group_member_left, group_member_updated, CharacterState, GameData,
    GameLanguage, GameState, GroupMember, GroupMemberFlags, GroupMemberOwned, GroupType,
    IsActionCam, MapType, TimeOfDay,
};
use nexus::util::cstr_prefix_bytes;

fn name_buffer(name: &str) -> [u8; 140] {
    let mut buffer = [0u8; 140];
    for (i, b) in name.as_bytes().iter().enumerate() {
        buffer[i] = *b;
    }
    buffer
}

#[test]
fn enum_decoding() {
    assert_eq!(GameState::from_u32(0), Ok(GameState::CharacterSelection));
    assert_eq!(GameState::from_u32(4), Ok(GameState::Gameplay));
    assert_eq!(GameState::from_u32(5), Err(5));
    assert_eq!(GameLanguage::from_u32(3), Ok(GameLanguage::German));
    assert_eq!(GameLanguage::from_u32(6), Err(6));
    assert_eq!(TimeOfDay::from_u32(2), Ok(TimeOfDay::Dusk));
    assert_eq!(TimeOfDay::from_u32(4), Err(4));
    assert_eq!(MapType::from_u32(5), Ok(MapType::Public));
    assert_eq!(MapType::from_u32(18), Ok(MapType::WvWLounge));
    assert_eq!(MapType::from_u32(19), Err(19));
    assert_eq!(GroupType::from_u32(0), Ok(GroupType::Solo));
    assert_eq!(GroupType::from_u32(3), Ok(GroupType::Squad));
    assert_eq!(GroupType::from_u32(4), Err(4));
}

#[test]
fn game_data_read() {
    let data = GameData::read(123456, 4, 0);
    assert_eq!(data.game_build, 123456);
    assert_eq!(data.game_state, Ok(GameState::Gameplay));
    assert_eq!(data.language, Ok(GameLanguage::English));
    let unknown = GameData::read(1, 99, 77);
    assert_eq!(unknown.game_state, Err(99));
    assert_eq!(unknown.language, Err(77));
}

#[test]
fn character_state_flags() {
    let state = CharacterState::from_bits_retain(0b101_0101);
    assert!(state.is_alive());
    assert!(!state.is_downed());
    assert!(state.is_in_combat());
    assert!(!state.is_swimming());
    assert!(state.is_underwater());
    assert!(!state.is_gliding());
    assert!(state.is_flying());
}

#[test]
fn action_camera_flag() {
    assert!(IsActionCam::from_bits(1).is_action_camera());
    assert!(!IsActionCam::from_bits(0).is_action_camera());
    // only the lowest bit decides
    assert!(IsActionCam::from_bits(3).is_action_camera());
    assert!(!IsActionCam::from_bits(2).is_action_camera());
}

#[test]
fn nul_terminated_extraction() {
    assert_eq!(cstr_prefix_bytes(&[65, 66, 0, 67]), vec![65, 66]);
    assert_eq!(cstr_prefix_bytes(&[0, 65]), vec![]);
    // a buffer without a nul is taken whole
    assert_eq!(cstr_prefix_bytes(&[65, 66, 67]), vec![65, 66, 67]);
    assert_eq!(cstr_prefix_bytes(&[]), vec![]);
}

#[test]
fn group_member_names_and_flags() {
    let member = GroupMember {
        account_name: name_buffer("Knight.1234"),
        character_name: name_buffer("Good Knight"),
        subgroup: 2,
        profession: 4,
        elite_specialization: 62,
        flags: GroupMemberFlags::from_bits(0b0101),
    };
    assert_eq!(member.account_name(), "Knight.1234");
    assert_eq!(member.character_name(), "Good Knight");
    assert!(member.is_self());
    assert!(!member.is_in_instance());
    assert!(member.is_commander());
    assert!(!member.is_lieutenant());

    let owned = GroupMemberOwned::from(&member);
    assert_eq!(owned.account_name, "Knight.1234");
    assert_eq!(owned.character_name, "Good Knight");
    assert_eq!(owned.subgroup, 2);
    assert_eq!(owned.profession, 4);
    assert_eq!(owned.elite_specialization, 62);
    assert!(owned.is_self);
    assert!(!owned.is_in_instance);
    assert!(owned.is_commander);
    assert!(!owned.is_lieutenant);
    assert_eq!(member.to_owned(), owned);
}

#[test]
fn group_member_name_decodes_lossily() {
    // an invalid UTF-8 byte in the name buffer becomes the replacement
    // character instead of being handed through unchanged
    let mut buffer = [0u8; 140];
    buffer[0] = 0xFF;
    buffer[1] = b'A';
    let member = GroupMember {
        account_name: buffer,
        character_name: name_buffer(""),
        subgroup: 0,
        profession: 0,
        elite_specialization: 0,
        flags: GroupMemberFlags::from_bits(0),
    };
    assert_eq!(member.account_name(), "\u{FFFD}A");
    assert_eq!(member.character_name(), "");
}

#[test]
fn telemetry_event_identifiers() {
    assert_eq!(group_member_joined().identifier, "RTAPI_GROUP_MEMBER_JOINED");
    assert_eq!(group_member_left().identifier, "RTAPI_GROUP_MEMBER_LEFT");
    assert_eq!(group_member_updated().identifier, "RTAPI_GROUP_MEMBER_UPDATED");
}

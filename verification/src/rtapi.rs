//! Model of the real-time telemetry data link.
//!
//! A companion addon maintains a shared-memory block with live game
//! telemetry in a fixed binary layout: numeric state fields, bit-flag
//! fields, and fixed-size null-terminated character-name buffers. The
//! embedding layer reads the raw block; the functions here decode the plain
//! values it hands over — enum fields to their typed meaning, flag words to
//! booleans, name buffers to strings — with bounds-checked, nul-terminated
//! extraction instead of exposing raw buffers. Reads of the block are
//! volatile: values may change between accesses.

use vstd::prelude::*;

use vstd::array::array_as_slice;
use vstd::utf8::{encode_utf8, valid_utf8};

use crate::util::{cstr_prefix, cstr_prefix_bytes, string_from_utf8_lossy, utf8_lossy};

verus! {

/// Current state of the game client.
#[derive(Debug, Clone, Copy, PartialEq, Eq, Structural)]
pub enum GameState {
    CharacterSelection,
    CharacterCreation,
    Cinematic,
    LoadingScreen,
    Gameplay,
}

impl GameState {
    /// Decodes the wire value of a game state; unknown values are handed
    /// back unchanged as the error.
    pub fn from_u32(value: u32) -> (r: Result<GameState, u32>)
        ensures
            r == match value {
                0u32 => Ok::<GameState, u32>(GameState::CharacterSelection),
                1u32 => Ok::<GameState, u32>(GameState::CharacterCreation),
                2u32 => Ok::<GameState, u32>(GameState::Cinematic),
                3u32 => Ok::<GameState, u32>(GameState::LoadingScreen),
                4u32 => Ok::<GameState, u32>(GameState::Gameplay),
                _ => Err::<GameState, u32>(value),
            },
    {
        match value {
            0 => Ok(GameState::CharacterSelection),
            1 => Ok(GameState::CharacterCreation),
            2 => Ok(GameState::Cinematic),
            3 => Ok(GameState::LoadingScreen),
            4 => Ok(GameState::Gameplay),
            _ => Err(value),
        }
    }
}

/// Language setting of the game client.
#[derive(Debug, Clone, Copy, PartialEq, Eq, Structural)]
pub enum GameLanguage {
    English,
    Korean,
    French,
    German,
    Spanish,
    Chinese,
}

impl GameLanguage {
    /// Decodes the wire value of a language; unknown values are handed back
    /// unchanged as the error.
    pub fn from_u32(value: u32) -> (r: Result<GameLanguage, u32>)
        ensures
            r == match value {
                0u32 => Ok::<GameLanguage, u32>(GameLanguage::English),
                1u32 => Ok::<GameLanguage, u32>(GameLanguage::Korean),
                2u32 => Ok::<GameLanguage, u32>(GameLanguage::French),
                3u32 => Ok::<GameLanguage, u32>(GameLanguage::German),
                4u32 => Ok::<GameLanguage, u32>(GameLanguage::Spanish),
                5u32 => Ok::<GameLanguage, u32>(GameLanguage::Chinese),
                _ => Err::<GameLanguage, u32>(value),
            },
    {
        match value {
            0 => Ok(GameLanguage::English),
            1 => Ok(GameLanguage::Korean),
            2 => Ok(GameLanguage::French),
            3 => Ok(GameLanguage::German),
            4 => Ok(GameLanguage::Spanish),
            5 => Ok(GameLanguage::Chinese),
            _ => Err(value),
        }
    }
}

/// In-game time of day.
#[derive(Debug, Clone, Copy, PartialEq, Eq, Structural)]
pub enum TimeOfDay {
    Dawn,
    Day,
    Dusk,
    Night,
}

impl TimeOfDay {
    /// Decodes the wire value of a time of day; unknown values are handed
    /// back unchanged as the error.
    pub fn from_u32(value: u32) -> (r: Result<TimeOfDay, u32>)
        ensures
            r == match value {
                0u32 => Ok::<TimeOfDay, u32>(TimeOfDay::Dawn),
                1u32 => Ok::<TimeOfDay, u32>(TimeOfDay::Day),
                2u32 => Ok::<TimeOfDay, u32>(TimeOfDay::Dusk),
                3u32 => Ok::<TimeOfDay, u32>(TimeOfDay::Night),
                _ => Err::<TimeOfDay, u32>(value),
            },
    {
        match value {
            0 => Ok(TimeOfDay::Dawn),
            1 => Ok(TimeOfDay::Day),
            2 => Ok(TimeOfDay::Dusk),
            3 => Ok(TimeOfDay::Night),
            _ => Err(value),
        }
    }
}

/// Type of the current map.
#[derive(Debug, Clone, Copy, PartialEq, Eq, Structural)]
pub enum MapType {
    AutoRedirect,
    CharacterCreation,
    PvP,
    GvG,
    Instance,
    Public,
    Tournament,
    Tutorial,
    UserTournament,
    WvWEternalBattlegrounds,
    WvWBlueBorderlands,
    WvWGreenBorderlands,
    WvWRedBorderlands,
    WVWFortunesVale,
    WvWObsidianSanctum,
    WvWEdgeOfTheMists,
    PublicMini,
    BigBattle,
    WvWLounge,
}

impl MapType {
    /// Decodes the wire value of a map type; unknown values are handed back
    /// unchanged as the error.
    pub fn from_u32(value: u32) -> (r: Result<MapType, u32>)
        ensures
            r == match value {
                0u32 => Ok::<MapType, u32>(MapType::AutoRedirect),
                1u32 => Ok::<MapType, u32>(MapType::CharacterCreation),
                2u32 => Ok::<MapType, u32>(MapType::PvP),
                3u32 => Ok::<MapType, u32>(MapType::GvG),
                4u32 => Ok::<MapType, u32>(MapType::Instance),
                5u32 => Ok::<MapType, u32>(MapType::Public),
                6u32 => Ok::<MapType, u32>(MapType::Tournament),
                7u32 => Ok::<MapType, u32>(MapType::Tutorial),
                8u32 => Ok::<MapType, u32>(MapType::UserTournament),
                9u32 => Ok::<MapType, u32>(MapType::WvWEternalBattlegrounds),
                10u32 => Ok::<MapType, u32>(MapType::WvWBlueBorderlands),
                11u32 => Ok::<MapType, u32>(MapType::WvWGreenBorderlands),
                12u32 => Ok::<MapType, u32>(MapType::WvWRedBorderlands),
                13u32 => Ok::<MapType, u32>(MapType::WVWFortunesVale),
                14u32 => Ok::<MapType, u32>(MapType::WvWObsidianSanctum),
                15u32 => Ok::<MapType, u32>(MapType::WvWEdgeOfTheMists),
                16u32 => Ok::<MapType, u32>(MapType::PublicMini),
                17u32 => Ok::<MapType, u32>(MapType::BigBattle),
                18u32 => Ok::<MapType, u32>(MapType::WvWLounge),
                _ => Err::<MapType, u32>(value),
            },
    {
        match value {
            0 => Ok(MapType::AutoRedirect),
            1 => Ok(MapType::CharacterCreation),
            2 => Ok(MapType::PvP),
            3 => Ok(MapType::GvG),
            4 => Ok(MapType::Instance),
            5 => Ok(MapType::Public),
            6 => Ok(MapType::Tournament),
            7 => Ok(MapType::Tutorial),
            8 => Ok(MapType::UserTournament),
            9 => Ok(MapType::WvWEternalBattlegrounds),
            10 => Ok(MapType::WvWBlueBorderlands),
            11 => Ok(MapType::WvWGreenBorderlands),
            12 => Ok(MapType::WvWRedBorderlands),
            13 => Ok(MapType::WVWFortunesVale),
            14 => Ok(MapType::WvWObsidianSanctum),
            15 => Ok(MapType::WvWEdgeOfTheMists),
            16 => Ok(MapType::PublicMini),
            17 => Ok(MapType::BigBattle),
            18 => Ok(MapType::WvWLounge),
            _ => Err(value),
        }
    }
}

/// Type of the current group.
#[derive(Debug, Clone, Copy, PartialEq, Eq, Structural)]
pub enum GroupType {
    /// Not in a group.
    Solo,
    Party,
    RaidSquad,
    Squad,
}

impl GroupType {
    /// Decodes the wire value of a group type; unknown values are handed
    /// back unchanged as the error.
    pub fn from_u32(value: u32) -> (r: Result<GroupType, u32>)
        ensures
            r == match value {
                0u32 => Ok::<GroupType, u32>(GroupType::Solo),
                1u32 => Ok::<GroupType, u32>(GroupType::Party),
                2u32 => Ok::<GroupType, u32>(GroupType::RaidSquad),
                3u32 => Ok::<GroupType, u32>(GroupType::Squad),
                _ => Err::<GroupType, u32>(value),
            },
    {
        match value {
            0 => Ok(GroupType::Solo),
            1 => Ok(GroupType::Party),
            2 => Ok(GroupType::RaidSquad),
            3 => Ok(GroupType::Squad),
            _ => Err(value),
        }
    }
}

/// State flags of the player character, one bit each.
#[derive(Debug, Clone, Copy, PartialEq, Eq, Structural)]
pub struct CharacterState {
    /// The raw flag word.
    pub bits: u32,
}

impl CharacterState {
    /// Wraps a raw flag word, keeping unknown bits.
    pub fn from_bits_retain(bits: u32) -> (r: Self)
        ensures
            r.bits == bits,
    {
        Self { bits }
    }

    /// Is alive.
    pub fn is_alive(&self) -> (r: bool)
        ensures
            r == (self.bits & 1 != 0),
    {
        self.bits & 1 != 0
    }

    /// Is downed.
    pub fn is_downed(&self) -> (r: bool)
        ensures
            r == (self.bits & 2 != 0),
    {
        self.bits & 2 != 0
    }

    /// Is in combat.
    pub fn is_in_combat(&self) -> (r: bool)
        ensures
            r == (self.bits & 4 != 0),
    {
        self.bits & 4 != 0
    }

    /// Is on the water surface.
    pub fn is_swimming(&self) -> (r: bool)
        ensures
            r == (self.bits & 8 != 0),
    {
        self.bits & 8 != 0
    }

    /// Is underwater.
    pub fn is_underwater(&self) -> (r: bool)
        ensures
            r == (self.bits & 16 != 0),
    {
        self.bits & 16 != 0
    }

    /// Is gliding.
    pub fn is_gliding(&self) -> (r: bool)
        ensures
            r == (self.bits & 32 != 0),
    {
        self.bits & 32 != 0
    }

    /// Is on a flying mount.
    pub fn is_flying(&self) -> (r: bool)
        ensures
            r == (self.bits & 64 != 0),
    {
        self.bits & 64 != 0
    }
}

/// Whether the action camera is enabled: bit 0 of a 32-bit field.
#[derive(Debug, Clone, Copy, PartialEq, Eq, Structural)]
pub struct IsActionCam {
    /// The raw field value.
    pub bits: u32,
}

impl IsActionCam {
    /// Wraps a raw field value.
    pub fn from_bits(bits: u32) -> (r: Self)
        ensures
            r.bits == bits,
    {
        Self { bits }
    }

    /// Whether the action camera is enabled.
    pub fn is_action_camera(&self) -> (r: bool)
        ensures
            r == (self.bits & 1 != 0),
    {
        self.bits & 1 != 0
    }
}

/// Membership flags of a group member, one bit each.
#[derive(Debug, Clone, Copy, PartialEq, Eq, Structural)]
pub struct GroupMemberFlags {
    /// The raw flag word.
    pub bits: u32,
}

impl GroupMemberFlags {
    /// Wraps a raw flag word, keeping unknown bits.
    pub fn from_bits(bits: u32) -> (r: Self)
        ensures
            r.bits == bits,
    {
        Self { bits }
    }

    /// Whether the member is the local player.
    pub fn is_self(&self) -> (r: bool)
        ensures
            r == (self.bits & 1 != 0),
    {
        self.bits & 1 != 0
    }

    /// Whether the member is in the current instance.
    pub fn is_in_instance(&self) -> (r: bool)
        ensures
            r == (self.bits & 2 != 0),
    {
        self.bits & 2 != 0
    }

    /// Whether the member is the commander of the current squad.
    pub fn is_commander(&self) -> (r: bool)
        ensures
            r == (self.bits & 4 != 0),
    {
        self.bits & 4 != 0
    }

    /// Whether the member is a lieutenant in the current squad.
    pub fn is_lieutenant(&self) -> (r: bool)
        ensures
            r == (self.bits & 8 != 0),
    {
        self.bits & 8 != 0
    }
}

/// Game client data of the telemetry block.
#[derive(Debug, Clone, Copy, PartialEq, Eq)]
pub struct GameData {
    /// Game build number.
    pub game_build: u32,
    /// Current game state, or the undecodable wire value.
    pub game_state: Result<GameState, u32>,
    /// Language setting of the game client, or the undecodable wire value.
    pub language: Result<GameLanguage, u32>,
}

impl GameData {
    /// Decodes game data from the raw field values of the telemetry block.
    pub fn read(game_build: u32, game_state: u32, language: u32) -> (r: Self)
        ensures
            r.game_build == game_build,
            r.game_state == match game_state {
                0u32 => Ok::<GameState, u32>(GameState::CharacterSelection),
                1u32 => Ok::<GameState, u32>(GameState::CharacterCreation),
                2u32 => Ok::<GameState, u32>(GameState::Cinematic),
                3u32 => Ok::<GameState, u32>(GameState::LoadingScreen),
                4u32 => Ok::<GameState, u32>(GameState::Gameplay),
                _ => Err::<GameState, u32>(game_state),
            },
            r.language == match language {
                0u32 => Ok::<GameLanguage, u32>(GameLanguage::English),
                1u32 => Ok::<GameLanguage, u32>(GameLanguage::Korean),
                2u32 => Ok::<GameLanguage, u32>(GameLanguage::French),
                3u32 => Ok::<GameLanguage, u32>(GameLanguage::German),
                4u32 => Ok::<GameLanguage, u32>(GameLanguage::Spanish),
                5u32 => Ok::<GameLanguage, u32>(GameLanguage::Chinese),
                _ => Err::<GameLanguage, u32>(language),
            },
    {
        Self {
            game_build,
            game_state: GameState::from_u32(game_state),
            language: GameLanguage::from_u32(language),
        }
    }
}

/// A group member, as laid out in the telemetry block: fixed-size
/// null-terminated name buffers, plain numeric fields, and a flag word.
#[derive(Debug, Clone, Copy)]
pub struct GroupMember {
    /// Account name buffer of the group member, null-terminated.
    pub account_name: [u8; 140],
    /// Character name buffer of the group member, null-terminated.
    pub character_name: [u8; 140],
    /// Subgroup of the member: 0 in a party, 1-15 in a squad.
    pub subgroup: u32,
    /// Profession of the member; 0 when unknown.
    pub profession: u32,
    /// Third specialization of the member; 0 when unknown.
    pub elite_specialization: u32,
    /// Membership flags of the member.
    pub flags: GroupMemberFlags,
}

impl GroupMember {
    /// The account name of the member: the name buffer up to its first nul,
    /// decoded lossily.
    pub fn account_name(&self) -> (r: String)
        ensures
            r@ == utf8_lossy(cstr_prefix(self.account_name@)),
            valid_utf8(cstr_prefix(self.account_name@)) ==> encode_utf8(r@) == cstr_prefix(
                self.account_name@,
            ),
    {
        let prefix = cstr_prefix_bytes(array_as_slice(&self.account_name));
        string_from_utf8_lossy(prefix.as_slice())
    }

    /// The character name of the member: the name buffer up to its first
    /// nul, decoded lossily.
    pub fn character_name(&self) -> (r: String)
        ensures
            r@ == utf8_lossy(cstr_prefix(self.character_name@)),
            valid_utf8(cstr_prefix(self.character_name@)) ==> encode_utf8(r@) == cstr_prefix(
                self.character_name@,
            ),
    {
        let prefix = cstr_prefix_bytes(array_as_slice(&self.character_name));
        string_from_utf8_lossy(prefix.as_slice())
    }

    /// Returns the flags of the member.
    pub fn flags(&self) -> (r: GroupMemberFlags)
        ensures
            r == self.flags,
    {
        self.flags
    }

    /// Returns whether the member is the local player.
    pub fn is_self(&self) -> (r: bool)
        ensures
            r == (self.flags.bits & 1 != 0),
    {
        self.flags.is_self()
    }

    /// Returns whether the member is in the current instance.
    pub fn is_in_instance(&self) -> (r: bool)
        ensures
            r == (self.flags.bits & 2 != 0),
    {
        self.flags.is_in_instance()
    }

    /// Returns whether the member is the commander of the current squad.
    pub fn is_commander(&self) -> (r: bool)
        ensures
            r == (self.flags.bits & 4 != 0),
    {
        self.flags.is_commander()
    }

    /// Returns whether the member is a lieutenant in the current squad.
    pub fn is_lieutenant(&self) -> (r: bool)
        ensures
            r == (self.flags.bits & 8 != 0),
    {
        self.flags.is_lieutenant()
    }

    /// Converts the member to a [`GroupMemberOwned`].
    pub fn to_owned(&self) -> (r: GroupMemberOwned)
        ensures
            r.account_name@ == utf8_lossy(cstr_prefix(self.account_name@)),
            r.character_name@ == utf8_lossy(cstr_prefix(self.character_name@)),
            r.subgroup == self.subgroup,
            r.profession == self.profession,
            r.elite_specialization == self.elite_specialization,
            r.is_self == (self.flags.bits & 1 != 0),
            r.is_in_instance == (self.flags.bits & 2 != 0),
            r.is_commander == (self.flags.bits & 4 != 0),
            r.is_lieutenant == (self.flags.bits & 8 != 0),
    {
        GroupMemberOwned::from(self)
    }
}

/// The telemetry event raised when a member joined the group. Its payload
/// is the [`GroupMember`] record.
pub fn group_member_joined() -> (r: crate::event::Event<GroupMember>)
    ensures
        r.identifier@ == "RTAPI_GROUP_MEMBER_JOINED"@,
{
    crate::event::Event::new("RTAPI_GROUP_MEMBER_JOINED".to_owned())
}

/// The telemetry event raised when a member left the group. Its payload is
/// the [`GroupMember`] record.
pub fn group_member_left() -> (r: crate::event::Event<GroupMember>)
    ensures
        r.identifier@ == "RTAPI_GROUP_MEMBER_LEFT"@,
{
    crate::event::Event::new("RTAPI_GROUP_MEMBER_LEFT".to_owned())
}

/// The telemetry event raised when a member of the group changed. Its
/// payload is the [`GroupMember`] record.
pub fn group_member_updated() -> (r: crate::event::Event<GroupMember>)
    ensures
        r.identifier@ == "RTAPI_GROUP_MEMBER_UPDATED"@,
{
    crate::event::Event::new("RTAPI_GROUP_MEMBER_UPDATED".to_owned())
}

/// A group member in owned form: names extracted from the buffers, flags
/// split into booleans.
#[derive(Debug, Clone, PartialEq, Eq)]
pub struct GroupMemberOwned {
    /// Account name of the group member.
    pub account_name: String,
    /// Character name of the group member.
    pub character_name: String,
    /// Subgroup of the member: 0 in a party, 1-15 in a squad.
    pub subgroup: u32,
    /// Profession of the member; 0 when unknown.
    pub profession: u32,
    /// Third specialization of the member; 0 when unknown.
    pub elite_specialization: u32,
    /// Whether the member is the local player.
    pub is_self: bool,
    /// Whether the member is in the current instance.
    pub is_in_instance: bool,
    /// Whether the member is the commander of the current squad.
    pub is_commander: bool,
    /// Whether the member is a lieutenant in the current squad.
    pub is_lieutenant: bool,
}

impl GroupMemberOwned {
    /// Decodes a raw group member: extracts both names from their buffers
    /// and splits the flag word into booleans.
    pub fn from(member: &GroupMember) -> (r: Self)
        ensures
            r.account_name@ == utf8_lossy(cstr_prefix(member.account_name@)),
            r.character_name@ == utf8_lossy(cstr_prefix(member.character_name@)),
            r.subgroup == member.subgroup,
            r.profession == member.profession,
            r.elite_specialization == member.elite_specialization,
            r.is_self == (member.flags.bits & 1 != 0),
            r.is_in_instance == (member.flags.bits & 2 != 0),
            r.is_commander == (member.flags.bits & 4 != 0),
            r.is_lieutenant == (member.flags.bits & 8 != 0),
    {
        Self {
            account_name: member.account_name(),
            character_name: member.character_name(),
            subgroup: member.subgroup,
            profession: member.profession,
            elite_specialization: member.elite_specialization,
            is_self: member.is_self(),
            is_in_instance: member.is_in_instance(),
            is_commander: member.is_commander(),
            is_lieutenant: member.is_lieutenant(),
        }
    }
}

} // verus!

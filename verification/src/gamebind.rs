//! Game keybinds: actions of the game client that the host can trigger.

use vstd::prelude::*;

use crate::host::HostCall;
use crate::lifecycle::LifecycleState;

verus! {

/// A keybind of the game client itself.
#[derive(Debug, Clone, Copy, PartialEq, Eq, Structural)]
pub enum GameBind {
    MoveForward,
    MoveBackward,
    MoveLeft,
    MoveRight,
    MoveTurnLeft,
    MoveTurnRight,
    MoveDodge,
    MoveAutoRun,
    MoveWalk,
    MoveJump,
    MoveSwimUp,
    MoveSwimDown,
    MoveAboutFace,
    SkillWeaponSwap,
    SkillWeapon1,
    SkillWeapon2,
    SkillWeapon3,
    SkillWeapon4,
    SkillWeapon5,
    SkillHeal,
    SkillUtility1,
    SkillUtility2,
    SkillUtility3,
    SkillElite,
    SkillProfession1,
    SkillProfession2,
    SkillProfession3,
    SkillProfession4,
    SkillProfession5,
    SkillProfession6,
    SkillProfession7,
    SkillSpecialAction,
    TargetAlert,
    TargetCall,
    TargetTake,
    TargetCallLocal,
    TargetTakeLocal,
    TargetEnemyNearest,
    TargetEnemyNext,
    TargetEnemyPrev,
    TargetAllyNearest,
    TargetAllyNext,
    TargetAllyPrev,
    TargetLock,
    TargetSnapGroundTarget,
    TargetSnapGroundTargetToggle,
    TargetAutoTargetingDisable,
    TargetAutoTargetingToggle,
    TargetAllyTargetingMode,
    TargetAllyTargetingModeToggle,
    UiTradingPost,
    UiContacts,
    UiGuild,
    UiHero,
    UiInventory,
    UiPets,
    UiLogout,
    UiMail,
    UiOptions,
    UiParty,
    UiPvp,
    UiPvpBuild,
    UiScoreboard,
    UiWizardsVault,
    UiInformation,
    UiChatToggle,
    UiChatCommand,
    UiChatFocus,
    UiChatReply,
    UiToggle,
    UiSquadBroadcastChatToggle,
    UiSquadBroadcastChatCommand,
    UiSquadBroadcastChatFocus,
    CameraFree,
    CameraZoomIn,
    CameraZoomOut,
    CameraReverse,
    CameraActionMode,
    CameraActionModeDisable,
    ScreenshotNormal,
    ScreenshotStereoscopic,
    MapToggle,
    MapFocusPlayer,
    MapFloorDown,
    MapFloorUp,
    MapZoomIn,
    MapZoomOut,
    MountToggle,
    MountMovement,
    MountSecondaryMovement,
    MountRaptor,
    MountSpringer,
    MountSkimmer,
    MountJackal,
    MountGriffon,
    MountRollerBeetle,
    MountWarclaw,
    MountSkyscale,
    MountSiegeTurtle,
    SpectatorNearestFixed,
    SpectatorNearestPlayer,
    SpectatorPlayerRed1,
    SpectatorPlayerRed2,
    SpectatorPlayerRed3,
    SpectatorPlayerRed4,
    SpectatorPlayerRed5,
    SpectatorPlayerBlue1,
    SpectatorPlayerBlue2,
    SpectatorPlayerBlue3,
    SpectatorPlayerBlue4,
    SpectatorPlayerBlue5,
    SpectatorFreeCamera,
    SpectatorFreeCameraMode,
    SpectatorFreeMoveForward,
    SpectatorFreeMoveBackward,
    SpectatorFreeMoveLeft,
    SpectatorFreeMoveRight,
    SpectatorFreeMoveUp,
    SpectatorFreeMoveDown,
    SquadMarkerPlaceWorldArrow,
    SquadMarkerPlaceWorldCircle,
    SquadMarkerPlaceWorldHeart,
    SquadMarkerPlaceWorldSquare,
    SquadMarkerPlaceWorldStar,
    SquadMarkerPlaceWorldSwirl,
    SquadMarkerPlaceWorldTriangle,
    SquadMarkerPlaceWorldCross,
    SquadMarkerClearAllWorld,
    SquadMarkerSetAgentArrow,
    SquadMarkerSetAgentCircle,
    SquadMarkerSetAgentHeart,
    SquadMarkerSetAgentSquare,
    SquadMarkerSetAgentStar,
    SquadMarkerSetAgentSwirl,
    SquadMarkerSetAgentTriangle,
    SquadMarkerSetAgentCross,
    SquadMarkerClearAllAgent,
    MasteryAccess,
    MasteryAccessFishing,
    MasteryAccessSkiff,
    MasteryAccessJadeBotWaypoint,
    MasteryAccessRiftScan,
    MasteryAccessSkyscale,
    MasteryAccessHomesteadDoorway,
    MiscAoELoot,
    MiscInteract,
    MiscShowEnemies,
    MiscShowAllies,
    MiscStowDrawWeapon,
    MiscToggleLanguage,
    MiscTogglePetCombat,
    MiscToggleFullScreen,
    MiscToggleDecorationMode,
    ToyUseDefault,
    ToyUseSlotChair,
    ToyUseSlotInstrument,
    ToyUseSlotHeltItem,
    ToyUseSlotToy,
    ToyUseSlotTonic,
    Loadout1,
    Loadout2,
    Loadout3,
    Loadout4,
    Loadout5,
    Loadout6,
    Loadout7,
    Loadout8,
    Loadout9,
    GearLoadout1,
    GearLoadout2,
    GearLoadout3,
    GearLoadout4,
    GearLoadout5,
    GearLoadout6,
    GearLoadout7,
    GearLoadout8,
    GearLoadout9,
}

/// The wire value of a game bind in the host's binary interface.
pub open spec fn spec_game_bind_code(bind: GameBind) -> u32 {
    match bind {
        GameBind::MoveForward => 0,
        GameBind::MoveBackward => 1,
        GameBind::MoveLeft => 2,
        GameBind::MoveRight => 3,
        GameBind::MoveTurnLeft => 4,
        GameBind::MoveTurnRight => 5,
        GameBind::MoveDodge => 6,
        GameBind::MoveAutoRun => 7,
        GameBind::MoveWalk => 8,
        GameBind::MoveJump => 9,
        GameBind::MoveSwimUp => 10,
        GameBind::MoveSwimDown => 11,
        GameBind::MoveAboutFace => 12,
        GameBind::SkillWeaponSwap => 17,
        GameBind::SkillWeapon1 => 18,
        GameBind::SkillWeapon2 => 19,
        GameBind::SkillWeapon3 => 20,
        GameBind::SkillWeapon4 => 21,
        GameBind::SkillWeapon5 => 22,
        GameBind::SkillHeal => 23,
        GameBind::SkillUtility1 => 24,
        GameBind::SkillUtility2 => 25,
        GameBind::SkillUtility3 => 26,
        GameBind::SkillElite => 27,
        GameBind::SkillProfession1 => 28,
        GameBind::SkillProfession2 => 29,
        GameBind::SkillProfession3 => 30,
        GameBind::SkillProfession4 => 31,
        GameBind::SkillProfession5 => 79,
        GameBind::SkillProfession6 => 201,
        GameBind::SkillProfession7 => 202,
        GameBind::SkillSpecialAction => 82,
        GameBind::TargetAlert => 131,
        GameBind::TargetCall => 32,
        GameBind::TargetTake => 33,
        GameBind::TargetCallLocal => 199,
        GameBind::TargetTakeLocal => 200,
        GameBind::TargetEnemyNearest => 34,
        GameBind::TargetEnemyNext => 35,
        GameBind::TargetEnemyPrev => 36,
        GameBind::TargetAllyNearest => 37,
        GameBind::TargetAllyNext => 38,
        GameBind::TargetAllyPrev => 39,
        GameBind::TargetLock => 40,
        GameBind::TargetSnapGroundTarget => 80,
        GameBind::TargetSnapGroundTargetToggle => 115,
        GameBind::TargetAutoTargetingDisable => 116,
        GameBind::TargetAutoTargetingToggle => 117,
        GameBind::TargetAllyTargetingMode => 197,
        GameBind::TargetAllyTargetingModeToggle => 198,
        GameBind::UiTradingPost => 41,
        GameBind::UiContacts => 42,
        GameBind::UiGuild => 43,
        GameBind::UiHero => 44,
        GameBind::UiInventory => 45,
        GameBind::UiPets => 46,
        GameBind::UiLogout => 47,
        GameBind::UiMail => 71,
        GameBind::UiOptions => 48,
        GameBind::UiParty => 49,
        GameBind::UiPvp => 73,
        GameBind::UiPvpBuild => 75,
        GameBind::UiScoreboard => 50,
        GameBind::UiWizardsVault => 209,
        GameBind::UiInformation => 51,
        GameBind::UiChatToggle => 70,
        GameBind::UiChatCommand => 52,
        GameBind::UiChatFocus => 53,
        GameBind::UiChatReply => 54,
        GameBind::UiToggle => 55,
        GameBind::UiSquadBroadcastChatToggle => 85,
        GameBind::UiSquadBroadcastChatCommand => 83,
        GameBind::UiSquadBroadcastChatFocus => 84,
        GameBind::CameraFree => 13,
        GameBind::CameraZoomIn => 14,
        GameBind::CameraZoomOut => 15,
        GameBind::CameraReverse => 16,
        GameBind::CameraActionMode => 78,
        GameBind::CameraActionModeDisable => 114,
        GameBind::ScreenshotNormal => 56,
        GameBind::ScreenshotStereoscopic => 57,
        GameBind::MapToggle => 59,
        GameBind::MapFocusPlayer => 60,
        GameBind::MapFloorDown => 61,
        GameBind::MapFloorUp => 62,
        GameBind::MapZoomIn => 63,
        GameBind::MapZoomOut => 64,
        GameBind::MountToggle => 152,
        GameBind::MountMovement => 130,
        GameBind::MountSecondaryMovement => 153,
        GameBind::MountRaptor => 155,
        GameBind::MountSpringer => 156,
        GameBind::MountSkimmer => 157,
        GameBind::MountJackal => 158,
        GameBind::MountGriffon => 159,
        GameBind::MountRollerBeetle => 161,
        GameBind::MountWarclaw => 169,
        GameBind::MountSkyscale => 170,
        GameBind::MountSiegeTurtle => 203,
        GameBind::SpectatorNearestFixed => 102,
        GameBind::SpectatorNearestPlayer => 103,
        GameBind::SpectatorPlayerRed1 => 104,
        GameBind::SpectatorPlayerRed2 => 105,
        GameBind::SpectatorPlayerRed3 => 106,
        GameBind::SpectatorPlayerRed4 => 107,
        GameBind::SpectatorPlayerRed5 => 108,
        GameBind::SpectatorPlayerBlue1 => 109,
        GameBind::SpectatorPlayerBlue2 => 110,
        GameBind::SpectatorPlayerBlue3 => 111,
        GameBind::SpectatorPlayerBlue4 => 112,
        GameBind::SpectatorPlayerBlue5 => 113,
        GameBind::SpectatorFreeCamera => 120,
        GameBind::SpectatorFreeCameraMode => 127,
        GameBind::SpectatorFreeMoveForward => 121,
        GameBind::SpectatorFreeMoveBackward => 122,
        GameBind::SpectatorFreeMoveLeft => 123,
        GameBind::SpectatorFreeMoveRight => 124,
        GameBind::SpectatorFreeMoveUp => 125,
        GameBind::SpectatorFreeMoveDown => 126,
        GameBind::SquadMarkerPlaceWorldArrow => 86,
        GameBind::SquadMarkerPlaceWorldCircle => 87,
        GameBind::SquadMarkerPlaceWorldHeart => 88,
        GameBind::SquadMarkerPlaceWorldSquare => 89,
        GameBind::SquadMarkerPlaceWorldStar => 90,
        GameBind::SquadMarkerPlaceWorldSwirl => 91,
        GameBind::SquadMarkerPlaceWorldTriangle => 92,
        GameBind::SquadMarkerPlaceWorldCross => 93,
        GameBind::SquadMarkerClearAllWorld => 119,
        GameBind::SquadMarkerSetAgentArrow => 94,
        GameBind::SquadMarkerSetAgentCircle => 95,
        GameBind::SquadMarkerSetAgentHeart => 96,
        GameBind::SquadMarkerSetAgentSquare => 97,
        GameBind::SquadMarkerSetAgentStar => 98,
        GameBind::SquadMarkerSetAgentSwirl => 99,
        GameBind::SquadMarkerSetAgentTriangle => 100,
        GameBind::SquadMarkerSetAgentCross => 101,
        GameBind::SquadMarkerClearAllAgent => 118,
        GameBind::MasteryAccess => 196,
        GameBind::MasteryAccessFishing => 204,
        GameBind::MasteryAccessSkiff => 205,
        GameBind::MasteryAccessJadeBotWaypoint => 206,
        GameBind::MasteryAccessRiftScan => 207,
        GameBind::MasteryAccessSkyscale => 208,
        GameBind::MasteryAccessHomesteadDoorway => 211,
        GameBind::MiscAoELoot => 74,
        GameBind::MiscInteract => 65,
        GameBind::MiscShowEnemies => 66,
        GameBind::MiscShowAllies => 67,
        GameBind::MiscStowDrawWeapon => 68,
        GameBind::MiscToggleLanguage => 69,
        GameBind::MiscTogglePetCombat => 76,
        GameBind::MiscToggleFullScreen => 160,
        GameBind::MiscToggleDecorationMode => 210,
        GameBind::ToyUseDefault => 162,
        GameBind::ToyUseSlotChair => 163,
        GameBind::ToyUseSlotInstrument => 164,
        GameBind::ToyUseSlotHeltItem => 165,
        GameBind::ToyUseSlotToy => 166,
        GameBind::ToyUseSlotTonic => 167,
        GameBind::Loadout1 => 171,
        GameBind::Loadout2 => 172,
        GameBind::Loadout3 => 173,
        GameBind::Loadout4 => 174,
        GameBind::Loadout5 => 175,
        GameBind::Loadout6 => 176,
        GameBind::Loadout7 => 177,
        GameBind::Loadout8 => 178,
        GameBind::Loadout9 => 179,
        GameBind::GearLoadout1 => 182,
        GameBind::GearLoadout2 => 183,
        GameBind::GearLoadout3 => 184,
        GameBind::GearLoadout4 => 185,
        GameBind::GearLoadout5 => 186,
        GameBind::GearLoadout6 => 187,
        GameBind::GearLoadout7 => 188,
        GameBind::GearLoadout8 => 189,
        GameBind::GearLoadout9 => 190,
    }
}

impl GameBind {
    /// Returns the wire value the host expects for this game bind.
    pub fn code(&self) -> (r: u32)
        ensures
            r == spec_game_bind_code(*self),
    {
        match self {
            GameBind::MoveForward => 0,
            GameBind::MoveBackward => 1,
            GameBind::MoveLeft => 2,
            GameBind::MoveRight => 3,
            GameBind::MoveTurnLeft => 4,
            GameBind::MoveTurnRight => 5,
            GameBind::MoveDodge => 6,
            GameBind::MoveAutoRun => 7,
            GameBind::MoveWalk => 8,
            GameBind::MoveJump => 9,
            GameBind::MoveSwimUp => 10,
            GameBind::MoveSwimDown => 11,
            GameBind::MoveAboutFace => 12,
            GameBind::SkillWeaponSwap => 17,
            GameBind::SkillWeapon1 => 18,
            GameBind::SkillWeapon2 => 19,
            GameBind::SkillWeapon3 => 20,
            GameBind::SkillWeapon4 => 21,
            GameBind::SkillWeapon5 => 22,
            GameBind::SkillHeal => 23,
            GameBind::SkillUtility1 => 24,
            GameBind::SkillUtility2 => 25,
            GameBind::SkillUtility3 => 26,
            GameBind::SkillElite => 27,
            GameBind::SkillProfession1 => 28,
            GameBind::SkillProfession2 => 29,
            GameBind::SkillProfession3 => 30,
            GameBind::SkillProfession4 => 31,
            GameBind::SkillProfession5 => 79,
            GameBind::SkillProfession6 => 201,
            GameBind::SkillProfession7 => 202,
            GameBind::SkillSpecialAction => 82,
            GameBind::TargetAlert => 131,
            GameBind::TargetCall => 32,
            GameBind::TargetTake => 33,
            GameBind::TargetCallLocal => 199,
            GameBind::TargetTakeLocal => 200,
            GameBind::TargetEnemyNearest => 34,
            GameBind::TargetEnemyNext => 35,
            GameBind::TargetEnemyPrev => 36,
            GameBind::TargetAllyNearest => 37,
            GameBind::TargetAllyNext => 38,
            GameBind::TargetAllyPrev => 39,
            GameBind::TargetLock => 40,
            GameBind::TargetSnapGroundTarget => 80,
            GameBind::TargetSnapGroundTargetToggle => 115,
            GameBind::TargetAutoTargetingDisable => 116,
            GameBind::TargetAutoTargetingToggle => 117,
            GameBind::TargetAllyTargetingMode => 197,
            GameBind::TargetAllyTargetingModeToggle => 198,
            GameBind::UiTradingPost => 41,
            GameBind::UiContacts => 42,
            GameBind::UiGuild => 43,
            GameBind::UiHero => 44,
            GameBind::UiInventory => 45,
            GameBind::UiPets => 46,
            GameBind::UiLogout => 47,
            GameBind::UiMail => 71,
            GameBind::UiOptions => 48,
            GameBind::UiParty => 49,
            GameBind::UiPvp => 73,
            GameBind::UiPvpBuild => 75,
            GameBind::UiScoreboard => 50,
            GameBind::UiWizardsVault => 209,
            GameBind::UiInformation => 51,
            GameBind::UiChatToggle => 70,
            GameBind::UiChatCommand => 52,
            GameBind::UiChatFocus => 53,
            GameBind::UiChatReply => 54,
            GameBind::UiToggle => 55,
            GameBind::UiSquadBroadcastChatToggle => 85,
            GameBind::UiSquadBroadcastChatCommand => 83,
            GameBind::UiSquadBroadcastChatFocus => 84,
            GameBind::CameraFree => 13,
            GameBind::CameraZoomIn => 14,
            GameBind::CameraZoomOut => 15,
            GameBind::CameraReverse => 16,
            GameBind::CameraActionMode => 78,
            GameBind::CameraActionModeDisable => 114,
            GameBind::ScreenshotNormal => 56,
            GameBind::ScreenshotStereoscopic => 57,
            GameBind::MapToggle => 59,
            GameBind::MapFocusPlayer => 60,
            GameBind::MapFloorDown => 61,
            GameBind::MapFloorUp => 62,
            GameBind::MapZoomIn => 63,
            GameBind::MapZoomOut => 64,
            GameBind::MountToggle => 152,
            GameBind::MountMovement => 130,
            GameBind::MountSecondaryMovement => 153,
            GameBind::MountRaptor => 155,
            GameBind::MountSpringer => 156,
            GameBind::MountSkimmer => 157,
            GameBind::MountJackal => 158,
            GameBind::MountGriffon => 159,
            GameBind::MountRollerBeetle => 161,
            GameBind::MountWarclaw => 169,
            GameBind::MountSkyscale => 170,
            GameBind::MountSiegeTurtle => 203,
            GameBind::SpectatorNearestFixed => 102,
            GameBind::SpectatorNearestPlayer => 103,
            GameBind::SpectatorPlayerRed1 => 104,
            GameBind::SpectatorPlayerRed2 => 105,
            GameBind::SpectatorPlayerRed3 => 106,
            GameBind::SpectatorPlayerRed4 => 107,
            GameBind::SpectatorPlayerRed5 => 108,
            GameBind::SpectatorPlayerBlue1 => 109,
            GameBind::SpectatorPlayerBlue2 => 110,
            GameBind::SpectatorPlayerBlue3 => 111,
            GameBind::SpectatorPlayerBlue4 => 112,
            GameBind::SpectatorPlayerBlue5 => 113,
            GameBind::SpectatorFreeCamera => 120,
            GameBind::SpectatorFreeCameraMode => 127,
            GameBind::SpectatorFreeMoveForward => 121,
            GameBind::SpectatorFreeMoveBackward => 122,
            GameBind::SpectatorFreeMoveLeft => 123,
            GameBind::SpectatorFreeMoveRight => 124,
            GameBind::SpectatorFreeMoveUp => 125,
            GameBind::SpectatorFreeMoveDown => 126,
            GameBind::SquadMarkerPlaceWorldArrow => 86,
            GameBind::SquadMarkerPlaceWorldCircle => 87,
            GameBind::SquadMarkerPlaceWorldHeart => 88,
            GameBind::SquadMarkerPlaceWorldSquare => 89,
            GameBind::SquadMarkerPlaceWorldStar => 90,
            GameBind::SquadMarkerPlaceWorldSwirl => 91,
            GameBind::SquadMarkerPlaceWorldTriangle => 92,
            GameBind::SquadMarkerPlaceWorldCross => 93,
            GameBind::SquadMarkerClearAllWorld => 119,
            GameBind::SquadMarkerSetAgentArrow => 94,
            GameBind::SquadMarkerSetAgentCircle => 95,
            GameBind::SquadMarkerSetAgentHeart => 96,
            GameBind::SquadMarkerSetAgentSquare => 97,
            GameBind::SquadMarkerSetAgentStar => 98,
            GameBind::SquadMarkerSetAgentSwirl => 99,
            GameBind::SquadMarkerSetAgentTriangle => 100,
            GameBind::SquadMarkerSetAgentCross => 101,
            GameBind::SquadMarkerClearAllAgent => 118,
            GameBind::MasteryAccess => 196,
            GameBind::MasteryAccessFishing => 204,
            GameBind::MasteryAccessSkiff => 205,
            GameBind::MasteryAccessJadeBotWaypoint => 206,
            GameBind::MasteryAccessRiftScan => 207,
            GameBind::MasteryAccessSkyscale => 208,
            GameBind::MasteryAccessHomesteadDoorway => 211,
            GameBind::MiscAoELoot => 74,
            GameBind::MiscInteract => 65,
            GameBind::MiscShowEnemies => 66,
            GameBind::MiscShowAllies => 67,
            GameBind::MiscStowDrawWeapon => 68,
            GameBind::MiscToggleLanguage => 69,
            GameBind::MiscTogglePetCombat => 76,
            GameBind::MiscToggleFullScreen => 160,
            GameBind::MiscToggleDecorationMode => 210,
            GameBind::ToyUseDefault => 162,
            GameBind::ToyUseSlotChair => 163,
            GameBind::ToyUseSlotInstrument => 164,
            GameBind::ToyUseSlotHeltItem => 165,
            GameBind::ToyUseSlotToy => 166,
            GameBind::ToyUseSlotTonic => 167,
            GameBind::Loadout1 => 171,
            GameBind::Loadout2 => 172,
            GameBind::Loadout3 => 173,
            GameBind::Loadout4 => 174,
            GameBind::Loadout5 => 175,
            GameBind::Loadout6 => 176,
            GameBind::Loadout7 => 177,
            GameBind::Loadout8 => 178,
            GameBind::Loadout9 => 179,
            GameBind::GearLoadout1 => 182,
            GameBind::GearLoadout2 => 183,
            GameBind::GearLoadout3 => 184,
            GameBind::GearLoadout4 => 185,
            GameBind::GearLoadout5 => 186,
            GameBind::GearLoadout6 => 187,
            GameBind::GearLoadout7 => 188,
            GameBind::GearLoadout8 => 189,
            GameBind::GearLoadout9 => 190,
        }
    }
}

/// Describes pressing the given game bind asynchronously.
pub fn press_gamebind_async(state: &LifecycleState, bind: GameBind) -> (r: HostCall)
    requires
        state.is_initialized(),
    ensures
        r == (HostCall::GameBindPressAsync { bind }),
{
    HostCall::GameBindPressAsync { bind }
}

/// Describes releasing the given game bind asynchronously.
pub fn release_gamebind_async(state: &LifecycleState, bind: GameBind) -> (r: HostCall)
    requires
        state.is_initialized(),
    ensures
        r == (HostCall::GameBindReleaseAsync { bind }),
{
    HostCall::GameBindReleaseAsync { bind }
}

/// Describes pressing the given game bind asynchronously and releasing it after the given duration.
pub fn invoke_gamebind_async(state: &LifecycleState, bind: GameBind, duration: i32) -> (r: HostCall)
    requires
        state.is_initialized(),
    ensures
        r == (HostCall::GameBindInvokeAsync { bind, duration }),
{
    HostCall::GameBindInvokeAsync { bind, duration }
}

/// Describes pressing the given game bind.
pub fn press_gamebind(state: &LifecycleState, bind: GameBind) -> (r: HostCall)
    requires
        state.is_initialized(),
    ensures
        r == (HostCall::GameBindPress { bind }),
{
    HostCall::GameBindPress { bind }
}

/// Describes releasing the given game bind.
pub fn release_gamebind(state: &LifecycleState, bind: GameBind) -> (r: HostCall)
    requires
        state.is_initialized(),
    ensures
        r == (HostCall::GameBindRelease { bind }),
{
    HostCall::GameBindRelease { bind }
}

/// Describes checking whether the given game bind is bound; the embedding layer hands the answer back.
pub fn is_gamebind_bound(state: &LifecycleState, bind: GameBind) -> (r: HostCall)
    requires
        state.is_initialized(),
    ensures
        r == (HostCall::GameBindIsBound { bind }),
{
    HostCall::GameBindIsBound { bind }
}

} // verus!

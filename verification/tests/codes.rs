use nexus::addon::{AddonFlags, UpdateProvider};
use nexus::gamebind::GameBind;
use nexus::gui::RenderType;
use nexus::keybind::Keybind;
use nexus::log::LogLevel;

#[test]
fn log_level_codes() {
    assert_eq!(LogLevel::Off.code(), 0);
    assert_eq!(LogLevel::Critical.code(), 1);
    assert_eq!(LogLevel::Warning.code(), 2);
    assert_eq!(LogLevel::Info.code(), 3);
    assert_eq!(LogLevel::Debug.code(), 4);
    assert_eq!(LogLevel::Trace.code(), 5);
    assert_eq!(LogLevel::All.code(), 6);
}

#[test]
fn render_type_codes() {
    assert_eq!(RenderType::PreRender.code(), 0);
    assert_eq!(RenderType::Render.code(), 1);
    assert_eq!(RenderType::PostRender.code(), 2);
    assert_eq!(RenderType::OptionsRender.code(), 3);
}

#[test]
fn update_provider_codes() {
    assert_eq!(UpdateProvider::Unsupported.code(), 0);
    assert_eq!(UpdateProvider::Raidcore.code(), 1);
    assert_eq!(UpdateProvider::GitHub.code(), 2);
    assert_eq!(UpdateProvider::Direct.code(), 3);
}

#[test]
fn addon_flags_bits_roundtrip() {
    let none = AddonFlags::empty();
    assert_eq!(none.bits(), 0);
    let volatile = AddonFlags {
        is_volatile: true,
        disable_hotloading: false,
    };
    assert_eq!(volatile.bits(), 1);
    let no_hotload = AddonFlags {
        is_volatile: false,
        disable_hotloading: true,
    };
    assert_eq!(no_hotload.bits(), 2);
    let both = AddonFlags {
        is_volatile: true,
        disable_hotloading: true,
    };
    assert_eq!(both.bits(), 3);
    for flags in [none, volatile, no_hotload, both] {
        assert_eq!(AddonFlags::from_bits(flags.bits()), flags);
    }
    // unknown bits are ignored on decode
    assert_eq!(AddonFlags::from_bits(0xFF), both);
    assert_eq!(AddonFlags::from_bits(4), none);
}

#[test]
fn game_bind_codes() {
    assert_eq!(GameBind::MoveForward.code(), 0);
    assert_eq!(GameBind::MoveAboutFace.code(), 12);
    assert_eq!(GameBind::SkillWeaponSwap.code(), 17);
    assert_eq!(GameBind::SkillProfession5.code(), 79);
    assert_eq!(GameBind::TargetAlert.code(), 131);
    assert_eq!(GameBind::UiWizardsVault.code(), 209);
    assert_eq!(GameBind::CameraFree.code(), 13);
    assert_eq!(GameBind::MountSiegeTurtle.code(), 203);
    assert_eq!(GameBind::MasteryAccessHomesteadDoorway.code(), 211);
    assert_eq!(GameBind::GearLoadout9.code(), 190);
}

#[test]
fn keybind_without_modifiers() {
    let keybind = Keybind::without_modifiers(123);
    assert_eq!(keybind.key, 123);
    assert!(!keybind.alt);
    assert!(!keybind.ctrl);
    assert!(!keybind.shift);
    // the check answers true exactly when some modifier is set
    assert!(!keybind.has_modifiers());
    let with_alt = Keybind {
        key: 123,
        alt: true,
        ctrl: false,
        shift: false,
    };
    assert!(with_alt.has_modifiers());
}

use nexus::alert::send_alert;
use nexus::data_link::{get_resource, share_resource};
use nexus::font::{get_font, release_font};
use nexus::gui::{
    deregister_close_on_escape, register_close_on_escape, RenderSlots, RenderType,
};
use nexus::host::{HostCall, UnloadAction};
use nexus::keybind::{
    invoke_keybind, register_keybind_with_string, register_keybind_with_struct,
    unregister_keybind, Keybind,
};
use nexus::lifecycle::{ApiTable, LifecycleState};
use nexus::localization::{set_translation, translate, translate_to};
use nexus::log::{log, LogLevel};
use nexus::paths::{get_addon_dir, get_common_dir, get_game_dir};
use nexus::quick_access::{
    add_quick_access, add_quick_access_context_menu, add_shortcut, add_simple_shortcut,
    notify_quick_access, remove_quick_access, remove_quick_access_context_menu, remove_shortcut,
    remove_simple_shortcut,
};
use nexus::texture::{get_texture_or_create_from_url, load_texture_from_file};
use nexus::updater::request_update;
use nexus::util::str_no_interior_nul;
use nexus::wnd_proc::{deregister_wnd_proc, register_wnd_proc, send_wnd_proc_to_game};

fn initialized_state() -> LifecycleState {
    let mut state = LifecycleState::new();
    let table = ApiTable {
        imgui_context: 1,
        imgui_malloc: 2,
        imgui_free: 3,
    };
    assert_eq!(state.initialize(table), Ok(()));
    state
}

#[test]
fn keybind_registration_and_undo() {
    let state = initialized_state();
    let (call, revertible) =
        register_keybind_with_string(&state, "MY_KEYBIND".to_string(), 5, "ALT+SHIFT+X".to_string());
    assert_eq!(
        call,
        HostCall::KeybindRegisterWithString {
            identifier: "MY_KEYBIND".to_string(),
            handler: 5,
            keybind: "ALT+SHIFT+X".to_string(),
        }
    );
    assert_eq!(
        revertible.revert(),
        UnloadAction::KeybindDeregister {
            identifier: "MY_KEYBIND".to_string(),
        }
    );

    let keybind = Keybind {
        key: 123,
        alt: true,
        ctrl: false,
        shift: true,
    };
    let (call, revertible) =
        register_keybind_with_struct(&state, "MY_KEYBIND".to_string(), 5, keybind);
    assert_eq!(
        call,
        HostCall::KeybindRegisterWithStruct {
            identifier: "MY_KEYBIND".to_string(),
            handler: 5,
            keybind,
        }
    );
    assert_eq!(
        revertible.revert(),
        UnloadAction::KeybindDeregister {
            identifier: "MY_KEYBIND".to_string(),
        }
    );

    assert_eq!(
        invoke_keybind(&state, "MY_KEYBIND".to_string(), true),
        HostCall::KeybindInvoke {
            identifier: "MY_KEYBIND".to_string(),
            is_release: true,
        }
    );
    assert_eq!(
        unregister_keybind(&state, "MY_KEYBIND".to_string()),
        UnloadAction::KeybindDeregister {
            identifier: "MY_KEYBIND".to_string(),
        }
    );
}

#[test]
fn quick_access_registration_and_undo() {
    let state = initialized_state();
    let (call, revertible) = add_quick_access(
        &state,
        "MY_SHORTCUT".to_string(),
        "MY_ICON".to_string(),
        "MY_ICON_HOVER".to_string(),
        "MY_KEYBIND".to_string(),
        "This is my tooltip text".to_string(),
    );
    assert_eq!(
        call,
        HostCall::QuickAccessAdd {
            identifier: "MY_SHORTCUT".to_string(),
            texture_identifier: "MY_ICON".to_string(),
            texture_hover_identifier: "MY_ICON_HOVER".to_string(),
            keybind_identifier: "MY_KEYBIND".to_string(),
            tooltip_text: "This is my tooltip text".to_string(),
        }
    );
    assert_eq!(
        revertible.revert(),
        UnloadAction::QuickAccessRemove {
            identifier: "MY_SHORTCUT".to_string(),
        }
    );
    assert_eq!(
        remove_quick_access(&state, "MY_SHORTCUT".to_string()),
        UnloadAction::QuickAccessRemove {
            identifier: "MY_SHORTCUT".to_string(),
        }
    );
    assert_eq!(
        notify_quick_access(&state, "MY_SHORTCUT".to_string()),
        HostCall::QuickAccessNotify {
            identifier: "MY_SHORTCUT".to_string(),
        }
    );

    let (call, revertible) = add_quick_access_context_menu(
        &state,
        "MY_MENU".to_string(),
        Some("MY_SHORTCUT".to_string()),
        9,
    );
    assert_eq!(
        call,
        HostCall::ContextMenuAdd {
            identifier: "MY_MENU".to_string(),
            target_identifier: Some("MY_SHORTCUT".to_string()),
            callback: 9,
        }
    );
    assert_eq!(
        revertible.revert(),
        UnloadAction::ContextMenuRemove {
            identifier: "MY_MENU".to_string(),
        }
    );
    assert_eq!(
        remove_quick_access_context_menu(&state, "MY_MENU".to_string()),
        UnloadAction::ContextMenuRemove {
            identifier: "MY_MENU".to_string(),
        }
    );
}

#[test]
fn quick_access_aliases_match() {
    let state = initialized_state();
    let (call, revertible) = add_shortcut(
        &state,
        "S".to_string(),
        "T".to_string(),
        "H".to_string(),
        "K".to_string(),
        "TIP".to_string(),
    );
    assert_eq!(
        call,
        HostCall::QuickAccessAdd {
            identifier: "S".to_string(),
            texture_identifier: "T".to_string(),
            texture_hover_identifier: "H".to_string(),
            keybind_identifier: "K".to_string(),
            tooltip_text: "TIP".to_string(),
        }
    );
    assert_eq!(
        revertible.revert(),
        UnloadAction::QuickAccessRemove {
            identifier: "S".to_string(),
        }
    );
    assert_eq!(
        remove_shortcut(&state, "S".to_string()),
        UnloadAction::QuickAccessRemove {
            identifier: "S".to_string(),
        }
    );
    let (call, revertible) = add_simple_shortcut(&state, "S".to_string(), 4);
    assert_eq!(
        call,
        HostCall::ContextMenuAdd {
            identifier: "S".to_string(),
            target_identifier: None,
            callback: 4,
        }
    );
    assert_eq!(
        revertible.revert(),
        UnloadAction::ContextMenuRemove {
            identifier: "S".to_string(),
        }
    );
    assert_eq!(
        remove_simple_shortcut(&state, "S".to_string()),
        UnloadAction::ContextMenuRemove {
            identifier: "S".to_string(),
        }
    );
}

#[test]
fn render_slot_replaces_previous_callback() {
    let state = initialized_state();
    let mut slots = RenderSlots::new();
    let (update, first) = slots.register_render(&state, RenderType::Render, 1);
    assert_eq!(update.deregister_previous, None);
    assert_eq!(
        update.register,
        HostCall::RenderRegister {
            render_type: RenderType::Render,
            callback: 1,
        }
    );
    // a second registration for the same phase replaces the first
    let (update, second) = slots.register_render(&state, RenderType::Render, 2);
    assert_eq!(
        update.deregister_previous,
        Some(UnloadAction::RenderDeregister { callback: 1 })
    );
    assert_eq!(
        update.register,
        HostCall::RenderRegister {
            render_type: RenderType::Render,
            callback: 2,
        }
    );
    // another phase is untouched
    let (update, third) = slots.register_render(&state, RenderType::OptionsRender, 3);
    assert_eq!(update.deregister_previous, None);
    assert_eq!(
        slots.unregister_render(&state, 2),
        UnloadAction::RenderDeregister { callback: 2 }
    );
    first.leak();
    second.leak();
    third.leak();
}

#[test]
fn wnd_proc_calls() {
    let state = initialized_state();
    let (call, revertible) = register_wnd_proc(&state, 8);
    assert_eq!(call, HostCall::WndProcRegister { callback: 8 });
    assert_eq!(
        revertible.revert(),
        UnloadAction::WndProcDeregister { callback: 8 }
    );
    assert_eq!(
        deregister_wnd_proc(&state, 8),
        UnloadAction::WndProcDeregister { callback: 8 }
    );
    assert_eq!(
        send_wnd_proc_to_game(&state, 11, 22, 33, 44),
        HostCall::WndProcSendToGame {
            h_wnd: 11,
            u_msg: 22,
            w_param: 33,
            l_param: 44,
        }
    );
}

#[test]
fn message_and_resource_calls() {
    let state = initialized_state();
    assert_eq!(
        log(&state, LogLevel::Info, "My Addon".to_string(), "hello".to_string()),
        HostCall::Log {
            level: LogLevel::Info,
            channel: "My Addon".to_string(),
            message: "hello".to_string(),
        }
    );
    assert_eq!(
        send_alert(&state, "look out".to_string()),
        HostCall::Alert {
            message: "look out".to_string(),
        }
    );
    assert_eq!(
        request_update(&state, -42, "https://example.invalid/addon".to_string()),
        HostCall::RequestUpdate {
            signature: -42,
            update_link: "https://example.invalid/addon".to_string(),
        }
    );
    assert_eq!(
        set_translation(&state, "KEY".to_string(), "de".to_string(), "Hallo".to_string()),
        HostCall::TranslationSet {
            identifier: "KEY".to_string(),
            language_identifier: "de".to_string(),
            text: "Hallo".to_string(),
        }
    );
    assert_eq!(
        translate(&state, "KEY".to_string()),
        HostCall::Translate {
            identifier: "KEY".to_string(),
        }
    );
    assert_eq!(
        translate_to(&state, "KEY".to_string(), "fr".to_string()),
        HostCall::TranslateTo {
            identifier: "KEY".to_string(),
            language_identifier: "fr".to_string(),
        }
    );
    assert_eq!(get_game_dir(&state), HostCall::PathGetGameDir);
    assert_eq!(
        get_addon_dir(&state, "example".to_string()),
        HostCall::PathGetAddonDir {
            name: "example".to_string(),
        }
    );
    assert_eq!(get_common_dir(&state), HostCall::PathGetCommonDir);
    assert_eq!(
        get_resource(&state, "DL_NEXUS_LINK".to_string()),
        HostCall::DataLinkGet {
            identifier: "DL_NEXUS_LINK".to_string(),
        }
    );
    assert_eq!(
        share_resource(&state, "MY_LINK".to_string(), 64),
        HostCall::DataLinkShare {
            identifier: "MY_LINK".to_string(),
            resource_size: 64,
        }
    );
}

#[test]
fn texture_and_font_calls() {
    let state = initialized_state();
    assert_eq!(
        get_texture_or_create_from_url(
            &state,
            "TEX_ICON".to_string(),
            "https://example.invalid".to_string(),
            "/file/icon.png".to_string(),
        ),
        HostCall::TextureGetOrCreateFromUrl {
            identifier: "TEX_ICON".to_string(),
            remote: "https://example.invalid".to_string(),
            endpoint: "/file/icon.png".to_string(),
        }
    );
    assert_eq!(
        load_texture_from_file(&state, "TEX_ICON".to_string(), "icon.png".to_string(), None),
        HostCall::TextureLoadFromFile {
            identifier: "TEX_ICON".to_string(),
            file: "icon.png".to_string(),
            callback: None,
        }
    );
    let (call, revertible) = get_font(&state, "FONT_MAIN".to_string(), 6);
    assert_eq!(
        call,
        HostCall::FontGet {
            identifier: "FONT_MAIN".to_string(),
            callback: 6,
        }
    );
    assert_eq!(
        revertible.revert(),
        UnloadAction::FontRelease {
            identifier: "FONT_MAIN".to_string(),
            callback: 6,
        }
    );
    assert_eq!(
        release_font(&state, "FONT_MAIN".to_string(), 6),
        UnloadAction::FontRelease {
            identifier: "FONT_MAIN".to_string(),
            callback: 6,
        }
    );
}

#[test]
fn close_on_escape_calls() {
    let state = initialized_state();
    assert_eq!(
        register_close_on_escape(&state, "Test window".to_string(), 13),
        HostCall::UiRegisterCloseOnEscape {
            window_name: "Test window".to_string(),
            is_visible: 13,
        }
    );
    assert_eq!(
        deregister_close_on_escape(&state, "Test window".to_string()),
        HostCall::UiDeregisterCloseOnEscape {
            window_name: "Test window".to_string(),
        }
    );
}

#[test]
fn interior_nul_detection() {
    assert!(str_no_interior_nul("MY_KEYBIND"));
    assert!(str_no_interior_nul(""));
    assert!(!str_no_interior_nul("bad\0string"));
}

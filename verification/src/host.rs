//! Plain-data descriptions of calls into the host.
//!
//! The host is reached only through a table of native entry points that the
//! verified library cannot call itself. Every wrapped operation therefore
//! returns a description of the call to make — a [`HostCall`] for forward
//! calls, an [`UnloadAction`] for the undo of an earlier registration — and
//! the unverified embedding layer performs it against the real table.
//! Callback values are identified by plain tokens (`u64`) that the embedding
//! layer maps to the native function pointers it created.

use vstd::prelude::*;

use crate::gamebind::GameBind;
use crate::gui::RenderType;
use crate::keybind::Keybind;
use crate::log::LogLevel;

verus! {

/// The undo of a single registration with the host: a deferred, one-shot
/// procedure. Executed at most once, either immediately on revert or during
/// the unload drain.
#[derive(Debug, Clone, PartialEq, Eq)]
pub enum UnloadAction {
    /// Unsubscribe the callback from the event with this identifier.
    EventUnsubscribe { identifier: String, callback: u64 },
    /// Deregister the keybind with this identifier.
    KeybindDeregister { identifier: String },
    /// Remove the quick access shortcut with this identifier.
    QuickAccessRemove { identifier: String },
    /// Remove the quick access context menu with this identifier.
    ContextMenuRemove { identifier: String },
    /// Deregister the render callback with this token.
    RenderDeregister { callback: u64 },
    /// Deregister the window procedure callback with this token.
    WndProcDeregister { callback: u64 },
    /// Release the callback registered for the font with this identifier.
    FontRelease { identifier: String, callback: u64 },
    /// Run a procedure of the embedding layer, identified by its token.
    Custom { token: u64 },
}

/// A single forward call into the host's table of entry points.
#[derive(Debug, Clone, PartialEq, Eq)]
pub enum HostCall {
    /// Subscribe the callback to the event with this identifier.
    EventSubscribe { identifier: String, callback: u64 },
    /// Raise an event. The payload returned beside this description by the
    /// raise builders is what the embedding layer passes along.
    EventRaise { identifier: String },
    /// Raise an event for one specific addon. The payload returned beside
    /// this description is what the embedding layer passes along.
    EventRaiseTargeted { signature: i32, identifier: String },
    /// Raise an event without payload.
    EventRaiseNotification { identifier: String },
    /// Raise an event without payload for one specific addon.
    EventRaiseNotificationTargeted { signature: i32, identifier: String },
    /// Register a keybind described by a keybind string.
    KeybindRegisterWithString { identifier: String, handler: u64, keybind: String },
    /// Register a keybind described by a [`Keybind`] value.
    KeybindRegisterWithStruct { identifier: String, handler: u64, keybind: Keybind },
    /// Trigger a registered keybind programmatically.
    KeybindInvoke { identifier: String, is_release: bool },
    /// Press a game bind asynchronously.
    GameBindPressAsync { bind: GameBind },
    /// Release a game bind asynchronously.
    GameBindReleaseAsync { bind: GameBind },
    /// Press a game bind asynchronously, releasing it after the duration.
    GameBindInvokeAsync { bind: GameBind, duration: i32 },
    /// Press a game bind.
    GameBindPress { bind: GameBind },
    /// Release a game bind.
    GameBindRelease { bind: GameBind },
    /// Check whether a game bind is bound.
    GameBindIsBound { bind: GameBind },
    /// Add a quick access shortcut.
    QuickAccessAdd {
        identifier: String,
        texture_identifier: String,
        texture_hover_identifier: String,
        keybind_identifier: String,
        tooltip_text: String,
    },
    /// Send a notification to a quick access shortcut.
    QuickAccessNotify { identifier: String },
    /// Add a context menu to the quick access, or to one of its shortcuts.
    ContextMenuAdd { identifier: String, target_identifier: Option<String>, callback: u64 },
    /// Register a render callback for the given phase.
    RenderRegister { render_type: RenderType, callback: u64 },
    /// Register a window name whose visibility flag the host clears when
    /// the escape key is pressed; the flag is identified by a token of the
    /// embedding layer.
    UiRegisterCloseOnEscape { window_name: String, is_visible: u64 },
    /// Deregister a window name listening for the escape key.
    UiDeregisterCloseOnEscape { window_name: String },
    /// Register a callback to receive the font with this identifier.
    FontGet { identifier: String, callback: u64 },
    /// Register a window procedure callback.
    WndProcRegister { callback: u64 },
    /// Send a window message directly to the game, bypassing other hooks.
    WndProcSendToGame { h_wnd: u64, u_msg: u32, w_param: u64, l_param: u64 },
    /// Create a hook for the target function, in disabled state.
    HookCreate { target: u64, detour: u64 },
    /// Enable an already created hook.
    HookEnable { target: u64 },
    /// Disable an already created hook.
    HookDisable { target: u64 },
    /// Remove an already created hook.
    HookRemove { target: u64 },
    /// Log a message to the given channel.
    Log { level: LogLevel, channel: String, message: String },
    /// Show an alert visible to the user for a short amount of time.
    Alert { message: String },
    /// Request an update to be downloaded, without a version check.
    RequestUpdate { signature: i32, update_link: String },
    /// Set a translated string for the identifier and language at runtime.
    TranslationSet { identifier: String, language_identifier: String, text: String },
    /// Translate an identifier into the active language.
    Translate { identifier: String },
    /// Translate an identifier into the given language.
    TranslateTo { identifier: String, language_identifier: String },
    /// Retrieve a loaded texture by identifier.
    TextureGet { identifier: String },
    /// Retrieve a texture or create it from a file path.
    TextureGetOrCreateFromFile { identifier: String, file: String },
    /// Retrieve a texture or create it from an embedded resource.
    TextureGetOrCreateFromResource { identifier: String, resource_id: u32, module: u64 },
    /// Retrieve a texture or create it from a URL.
    TextureGetOrCreateFromUrl { identifier: String, remote: String, endpoint: String },
    /// Retrieve a texture or create it from bytes in memory.
    TextureGetOrCreateFromMemory { identifier: String, data: Vec<u8> },
    /// Load a texture from a file path and send it to the callback.
    TextureLoadFromFile { identifier: String, file: String, callback: Option<u64> },
    /// Load a texture from an embedded resource and send it to the callback.
    TextureLoadFromResource {
        identifier: String,
        resource_id: u32,
        module: u64,
        callback: Option<u64>,
    },
    /// Load a texture from a URL and send it to the callback.
    TextureLoadFromUrl {
        identifier: String,
        remote: String,
        endpoint: String,
        callback: Option<u64>,
    },
    /// Load a texture from bytes in memory and send it to the callback.
    TextureLoadFromMemory { identifier: String, data: Vec<u8>, callback: Option<u64> },
    /// Ask for the game directory.
    PathGetGameDir,
    /// Ask for the directory of the addon with this name.
    PathGetAddonDir { name: String },
    /// Ask for the common addon directory.
    PathGetCommonDir,
    /// Retrieve the shared resource with this identifier.
    DataLinkGet { identifier: String },
    /// Create a shared resource of the given size under this identifier.
    DataLinkShare { identifier: String, resource_size: usize },
}

} // verus!

//! Safe bookkeeping core for a host-loaded addon module.
//!
//! A host application loads the addon, hands it a table of capabilities once,
//! and later asks it to unload. Everything the addon registers with the host
//! (event subscriptions, keybinds, render callbacks, shortcuts) must be
//! undone on unload. This crate models that discipline: a write-once
//! lifecycle state gating all host access, revertible registrations that are
//! consumed exactly once, and a first-in-first-out queue of deferred undo
//! actions drained at unload. Calls into the host itself are described as
//! plain data which the unverified embedding layer performs.

pub mod addon;
pub mod alert;
pub mod arc;
pub mod data_link;
pub mod event;
pub mod font;
pub mod gamebind;
pub mod gui;
pub mod hook;
pub mod host;
pub mod keybind;
pub mod lifecycle;
pub mod localization;
pub mod log;
pub mod paths;
pub mod quick_access;
pub mod revertible;
pub mod rtapi;
pub mod texture;
pub mod updater;
pub mod util;
pub mod version;
pub mod wnd_proc;

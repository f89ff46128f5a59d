//! The decisions behind a sticker overlay for the Windows desktop.
//!
//! Every rule that turns a window message, a key press, a clipboard block or a
//! registry value into an action is a verified function here. The calls into
//! the operating system live outside this crate: they hand plain values in and
//! carry the returned actions out.

pub mod autostart;
pub mod boot_session;
pub mod bytes;
pub mod clipboard;
pub mod cloak;
pub mod crop_window;
pub mod error;
pub mod file_dialog;
pub mod hotkey;
pub mod hotkey_check;
pub mod hotkey_hook;
pub mod input;
pub mod keyboard_guard;
pub mod model;
pub mod monitors;
pub mod num;
pub mod overlay;
pub mod path;
pub mod single_instance;
pub mod sound;
pub mod text;
pub mod thumb_cache;
pub mod tiling_apply;
pub mod utf16;
pub mod winapi;
pub mod window;

pub use error::Win32Error;

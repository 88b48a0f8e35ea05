//! Keyboard-shortcut blocking rules of a kiosk browser: which system shortcuts
//! are blocked, how they are named on the command line, and how each platform
//! backend (evdev, X11 grabs, the Windows low-level hook) decides whether a key
//! event completes a blocked shortcut.

pub mod cli;
pub mod download;
pub mod evdev_filter;
pub mod guard;
pub mod key_set;
pub mod keys;
pub mod launch;
pub mod shortcut;
pub mod text;
pub mod window;
pub mod windows_hook;
pub mod x11_grabs;

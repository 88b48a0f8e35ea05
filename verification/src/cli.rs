use vstd::prelude::*;

verus! {

/// The command line of the kiosk browser.
pub struct Cli {
    /// URL to load in the kiosk browser
    pub url: String,
    /// Start in fullscreen mode
    pub fullscreen: bool,
    /// Comma-separated list of keys to block.
    /// Available keys: win, alt+tab, alt+f4, alt+esc, ctrl+esc,
    /// win+tab, win+d, win+e, win+r, win+l
    pub block_keys: Option<Vec<String>>,
    /// Use a preset key blocking profile.
    /// "kiosk" blocks all available system shortcuts.
    /// "none" blocks nothing (default behavior).
    pub block_keys_preset: Option<String>,
}

} // verus!

use vstd::prelude::*;
use crate::key_set::KeySet;
use crate::evdev_filter::{model_alt, model_blocks, model_ctrl, model_super, spec_evdev_role, FilterModel};
use crate::shortcut::{blocks, event_blocked, KeyRole};

verus! {

// Win32 virtual-key codes, window messages and hook flags; they are the
// values of the `windows` crate's constants of the same names.
pub const VK_TAB: u32 = 0x09;
pub const VK_ESCAPE: u32 = 0x1B;
pub const VK_D: u32 = 0x44;
pub const VK_E: u32 = 0x45;
pub const VK_L: u32 = 0x4C;
pub const VK_R: u32 = 0x52;
pub const VK_LWIN: u32 = 0x5B;
pub const VK_RWIN: u32 = 0x5C;
pub const VK_F4: u32 = 0x73;
/// Message of a low-level key-down event.
pub const WM_KEYDOWN: u32 = 0x0100;
/// Message of a low-level key-down event while Alt is held.
pub const WM_SYSKEYDOWN: u32 = 0x0104;
/// `KBDLLHOOKSTRUCT.flags` bit set when Alt is down.
pub const LLKHF_ALTDOWN: u32 = 0x20;

/// The part a Win32 virtual-key code plays in the shortcuts.
pub open spec fn spec_windows_role(vk: u32) -> KeyRole {
    if vk == VK_LWIN || vk == VK_RWIN {
        KeyRole::Meta
    } else if vk == VK_TAB {
        KeyRole::Tab
    } else if vk == VK_F4 {
        KeyRole::F4
    } else if vk == VK_ESCAPE {
        KeyRole::Escape
    } else if vk == VK_D {
        KeyRole::LetterD
    } else if vk == VK_E {
        KeyRole::LetterE
    } else if vk == VK_R {
        KeyRole::LetterR
    } else if vk == VK_L {
        KeyRole::LetterL
    } else {
        KeyRole::Other
    }
}

/// The part a Win32 virtual-key code plays in the shortcuts.
pub fn windows_role(vk: u32) -> (r: KeyRole)
    ensures
        r == spec_windows_role(vk),
{
    if vk == VK_LWIN || vk == VK_RWIN {
        KeyRole::Meta
    } else if vk == VK_TAB {
        KeyRole::Tab
    } else if vk == VK_F4 {
        KeyRole::F4
    } else if vk == VK_ESCAPE {
        KeyRole::Escape
    } else if vk == VK_D {
        KeyRole::LetterD
    } else if vk == VK_E {
        KeyRole::LetterE
    } else if vk == VK_R {
        KeyRole::LetterR
    } else if vk == VK_L {
        KeyRole::LetterL
    } else {
        KeyRole::Other
    }
}

/// Whether the hook's flags say Alt is down.
pub open spec fn alt_down(flags: u32) -> bool {
    flags & LLKHF_ALTDOWN != 0
}

/// Whether a key-down of `vk` performs a blocked shortcut. Alt is read from
/// the hook flags; Ctrl and the Windows keys from the asynchronous key state.
pub fn should_block(keys: &KeySet, vk: u32, flags: u32, ctrl_down: bool, win_down: bool) -> (r: bool)
    ensures
        r == event_blocked(keys@, spec_windows_role(vk), alt_down(flags), ctrl_down, win_down),
{
    let alt = flags & LLKHF_ALTDOWN != 0;
    blocks(keys, windows_role(vk), alt, ctrl_down, win_down)
}

/// Whether the low-level keyboard hook swallows an event instead of passing it
/// on: only key-down messages with a non-negative hook code are considered.
pub fn hook_swallows(
    keys: &KeySet,
    code: i32,
    message: u32,
    vk: u32,
    flags: u32,
    ctrl_down: bool,
    win_down: bool,
) -> (r: bool)
    ensures
        r == (code >= 0 && (message == WM_KEYDOWN || message == WM_SYSKEYDOWN) && event_blocked(
            keys@,
            spec_windows_role(vk),
            alt_down(flags),
            ctrl_down,
            win_down,
        )),
{
    if code >= 0 && (message == WM_KEYDOWN || message == WM_SYSKEYDOWN) {
        should_block(keys, vk, flags, ctrl_down, win_down)
    } else {
        false
    }
}

/// The evdev filter and the Windows hook apply one rule: for keys that play
/// the same part, with the same modifiers down and the same shortcuts
/// blocked, both block or both let the press through.
pub proof fn lemma_backends_agree(
    m: FilterModel,
    code: u16,
    vk: u32,
    flags: u32,
    ctrl_down: bool,
    win_down: bool,
)
    requires
        spec_evdev_role(code) == spec_windows_role(vk),
        model_alt(m) == alt_down(flags),
        model_ctrl(m) == ctrl_down,
        model_super(m) == win_down,
    ensures
        model_blocks(m, code) == event_blocked(
            m.blocked,
            spec_windows_role(vk),
            alt_down(flags),
            ctrl_down,
            win_down,
        ),
{
}

} // verus!

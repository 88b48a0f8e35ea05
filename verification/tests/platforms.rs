use kiosk_browser::guard::{after_evdev_attempt, is_wayland_session, LinuxGuard};
use kiosk_browser::key_set::KeySet;
use kiosk_browser::keys::BlockableKey;
use kiosk_browser::shortcut::{blocks, required_modifier, trigger_role, KeyRole, Modifier};
use kiosk_browser::windows_hook::{
    hook_swallows, should_block, windows_role, LLKHF_ALTDOWN, VK_D, VK_E, VK_ESCAPE, VK_F4, VK_L,
    VK_LWIN, VK_R, VK_RWIN, VK_TAB, WM_KEYDOWN, WM_SYSKEYDOWN,
};
use kiosk_browser::x11_grabs::{
    grab_masks, grab_requests, key_combos, ANY_MODIFIER, CONTROL_MASK, LOCK_MASK, MOD1_MASK,
    MOD2_MASK, MOD4_MASK, XK_D, XK_E, XK_ESCAPE, XK_F4, XK_L, XK_R, XK_SUPER_L, XK_SUPER_R, XK_TAB,
};

fn set_of(keys: &[BlockableKey]) -> KeySet {
    let mut s = KeySet::new();
    for k in keys {
        s.insert(*k);
    }
    s
}

#[test]
fn shortcut_table() {
    assert_eq!(trigger_role(BlockableKey::Win), KeyRole::Meta);
    assert_eq!(required_modifier(BlockableKey::Win), Modifier::AnyState);
    assert_eq!(trigger_role(BlockableKey::CtrlEsc), KeyRole::Escape);
    assert_eq!(required_modifier(BlockableKey::CtrlEsc), Modifier::Ctrl);
    assert_eq!(required_modifier(BlockableKey::AltF4), Modifier::Alt);
    assert_eq!(required_modifier(BlockableKey::WinL), Modifier::Super);
}

#[test]
fn blocks_needs_the_modifier() {
    let keys = set_of(&[BlockableKey::AltTab]);
    assert!(blocks(&keys, KeyRole::Tab, true, false, false));
    assert!(!blocks(&keys, KeyRole::Tab, false, true, true));
    assert!(!blocks(&keys, KeyRole::F4, true, true, true));
    let none = KeySet::new();
    assert!(!blocks(&none, KeyRole::Meta, true, true, true));
    assert!(!blocks(&KeySet::full(), KeyRole::Other, true, true, true));
}

#[test]
fn windows_codes() {
    assert_eq!(windows_role(VK_LWIN), KeyRole::Meta);
    assert_eq!(windows_role(VK_RWIN), KeyRole::Meta);
    assert_eq!(windows_role(VK_TAB), KeyRole::Tab);
    assert_eq!(windows_role(VK_F4), KeyRole::F4);
    assert_eq!(windows_role(VK_ESCAPE), KeyRole::Escape);
    assert_eq!(windows_role(VK_D), KeyRole::LetterD);
    assert_eq!(windows_role(VK_E), KeyRole::LetterE);
    assert_eq!(windows_role(VK_R), KeyRole::LetterR);
    assert_eq!(windows_role(VK_L), KeyRole::LetterL);
    assert_eq!(windows_role(0x41), KeyRole::Other);
}

#[test]
fn windows_should_block_cases() {
    let keys = set_of(&[BlockableKey::Win, BlockableKey::AltF4, BlockableKey::CtrlEsc, BlockableKey::WinR]);
    assert!(should_block(&keys, VK_LWIN, 0, false, false));
    assert!(should_block(&keys, VK_F4, LLKHF_ALTDOWN, false, false));
    assert!(!should_block(&keys, VK_F4, 0, true, true));
    assert!(should_block(&keys, VK_ESCAPE, 0, true, false));
    assert!(!should_block(&keys, VK_ESCAPE, LLKHF_ALTDOWN, false, false));
    assert!(should_block(&keys, VK_R, 0, false, true));
    assert!(!should_block(&keys, VK_E, 0, false, true));
}

#[test]
fn hook_only_acts_on_key_down() {
    let keys = set_of(&[BlockableKey::Win]);
    assert!(hook_swallows(&keys, 0, WM_KEYDOWN, VK_LWIN, 0, false, false));
    assert!(hook_swallows(&keys, 0, WM_SYSKEYDOWN, VK_RWIN, 0, false, false));
    assert!(!hook_swallows(&keys, 0, 0x0101, VK_LWIN, 0, false, false));
    assert!(!hook_swallows(&keys, -1, WM_KEYDOWN, VK_LWIN, 0, false, false));
    assert!(!hook_swallows(&keys, 0, WM_KEYDOWN, VK_TAB, LLKHF_ALTDOWN, false, false));
}

#[test]
fn x11_combos_per_key() {
    assert_eq!(key_combos(BlockableKey::Win), vec![(XK_SUPER_L, ANY_MODIFIER), (XK_SUPER_R, ANY_MODIFIER)]);
    assert_eq!(key_combos(BlockableKey::AltTab), vec![(XK_TAB, MOD1_MASK)]);
    assert_eq!(key_combos(BlockableKey::AltF4), vec![(XK_F4, MOD1_MASK)]);
    assert_eq!(key_combos(BlockableKey::AltEsc), vec![(XK_ESCAPE, MOD1_MASK)]);
    assert_eq!(key_combos(BlockableKey::CtrlEsc), vec![(XK_ESCAPE, CONTROL_MASK)]);
    assert_eq!(key_combos(BlockableKey::WinTab), vec![(XK_TAB, MOD4_MASK)]);
    assert_eq!(key_combos(BlockableKey::WinD), vec![(XK_D, MOD4_MASK)]);
    assert_eq!(key_combos(BlockableKey::WinE), vec![(XK_E, MOD4_MASK)]);
    assert_eq!(key_combos(BlockableKey::WinR), vec![(XK_R, MOD4_MASK)]);
    assert_eq!(key_combos(BlockableKey::WinL), vec![(XK_L, MOD4_MASK)]);
}

#[test]
fn x11_constants_match_x11_crate() {
    assert_eq!(XK_TAB, x11::keysym::XK_Tab);
    assert_eq!(XK_ESCAPE, x11::keysym::XK_Escape);
    assert_eq!(XK_F4, x11::keysym::XK_F4);
    assert_eq!(XK_SUPER_L, x11::keysym::XK_Super_L);
    assert_eq!(XK_SUPER_R, x11::keysym::XK_Super_R);
    assert_eq!(XK_D, x11::keysym::XK_d);
    assert_eq!(XK_E, x11::keysym::XK_e);
    assert_eq!(XK_L, x11::keysym::XK_l);
    assert_eq!(XK_R, x11::keysym::XK_r);
    assert_eq!(ANY_MODIFIER, x11::xlib::AnyModifier);
    assert_eq!(LOCK_MASK, x11::xlib::LockMask);
    assert_eq!(CONTROL_MASK, x11::xlib::ControlMask);
    assert_eq!(MOD1_MASK, x11::xlib::Mod1Mask);
    assert_eq!(MOD2_MASK, x11::xlib::Mod2Mask);
    assert_eq!(MOD4_MASK, x11::xlib::Mod4Mask);
}

#[test]
fn x11_grab_masks() {
    assert_eq!(grab_masks(ANY_MODIFIER), vec![ANY_MODIFIER]);
    assert_eq!(grab_masks(MOD1_MASK), vec![0x08, 0x18, 0x0a, 0x1a]);
    assert_eq!(grab_masks(MOD4_MASK), vec![0x40, 0x50, 0x42, 0x52]);
}

#[test]
fn x11_grab_requests_skip_missing_keys() {
    let resolved = vec![(133u32, ANY_MODIFIER), (0u32, ANY_MODIFIER), (23u32, MOD1_MASK)];
    assert_eq!(
        grab_requests(&resolved),
        vec![(133, ANY_MODIFIER), (23, 0x08), (23, 0x18), (23, 0x0a), (23, 0x1a)]
    );
    assert!(grab_requests(&Vec::new()).is_empty());
}

#[test]
fn wayland_detection() {
    assert!(is_wayland_session("wayland", false));
    assert!(is_wayland_session("WayLand", false));
    assert!(!is_wayland_session("x11", false));
    assert!(!is_wayland_session("", false));
    assert!(is_wayland_session("", true));
    assert!(!is_wayland_session("waylandx", false));
}

#[test]
fn linux_backend_choice() {
    assert_eq!(after_evdev_attempt(true, true), LinuxGuard::EvdevActive);
    assert_eq!(after_evdev_attempt(true, false), LinuxGuard::EvdevActive);
    assert_eq!(after_evdev_attempt(false, true), LinuxGuard::Unprotected);
    assert_eq!(after_evdev_attempt(false, false), LinuxGuard::X11Grabs);
}

use kiosk_browser::evdev_filter::{
    evdev_role, is_event_node, is_keyboard, InputRecord, KeyFilterState, EV_KEY, EV_SYN, KEY_A,
    KEY_D, KEY_E, KEY_ESC, KEY_F4, KEY_L, KEY_LEFTALT, KEY_LEFTCTRL, KEY_LEFTMETA, KEY_PRESS, KEY_R,
    KEY_RELEASE, KEY_REPEAT, KEY_RIGHTALT, KEY_RIGHTCTRL, KEY_RIGHTMETA, KEY_TAB, KEY_Z,
};
use evdev::KeyCode;
use kiosk_browser::key_set::KeySet;
use kiosk_browser::keys::BlockableKey;
use kiosk_browser::shortcut::KeyRole;

fn key(code: u16, value: i32) -> InputRecord {
    InputRecord { event_type: EV_KEY, code, value }
}

fn sync() -> InputRecord {
    InputRecord { event_type: EV_SYN, code: 0, value: 0 }
}

fn filter_with(keys: &[BlockableKey]) -> KeyFilterState {
    let mut set = KeySet::new();
    for k in keys {
        set.insert(*k);
    }
    KeyFilterState::new(set)
}

#[test]
fn codes_match_evdev() {
    assert_eq!(EV_SYN, evdev::EventType::SYNCHRONIZATION.0);
    assert_eq!(EV_KEY, evdev::EventType::KEY.0);
    let pairs: [(u16, KeyCode); 15] = [
        (KEY_ESC, KeyCode::KEY_ESC),
        (KEY_TAB, KeyCode::KEY_TAB),
        (KEY_E, KeyCode::KEY_E),
        (KEY_R, KeyCode::KEY_R),
        (KEY_LEFTCTRL, KeyCode::KEY_LEFTCTRL),
        (KEY_A, KeyCode::KEY_A),
        (KEY_D, KeyCode::KEY_D),
        (KEY_L, KeyCode::KEY_L),
        (KEY_Z, KeyCode::KEY_Z),
        (KEY_LEFTALT, KeyCode::KEY_LEFTALT),
        (KEY_F4, KeyCode::KEY_F4),
        (KEY_RIGHTCTRL, KeyCode::KEY_RIGHTCTRL),
        (KEY_RIGHTALT, KeyCode::KEY_RIGHTALT),
        (KEY_LEFTMETA, KeyCode::KEY_LEFTMETA),
        (KEY_RIGHTMETA, KeyCode::KEY_RIGHTMETA),
    ];
    for (ours, theirs) in pairs.iter() {
        assert_eq!(*ours, theirs.code());
    }
}

#[test]
fn evdev_roles() {
    assert_eq!(evdev_role(KEY_LEFTMETA), KeyRole::Meta);
    assert_eq!(evdev_role(KEY_RIGHTMETA), KeyRole::Meta);
    assert_eq!(evdev_role(KEY_TAB), KeyRole::Tab);
    assert_eq!(evdev_role(KEY_F4), KeyRole::F4);
    assert_eq!(evdev_role(KEY_ESC), KeyRole::Escape);
    assert_eq!(evdev_role(KEY_D), KeyRole::LetterD);
    assert_eq!(evdev_role(KEY_E), KeyRole::LetterE);
    assert_eq!(evdev_role(KEY_R), KeyRole::LetterR);
    assert_eq!(evdev_role(KEY_L), KeyRole::LetterL);
    assert_eq!(evdev_role(KEY_A), KeyRole::Other);
}

#[test]
fn keyboard_detection() {
    assert!(is_keyboard(&vec![KEY_ESC, KEY_A, KEY_Z, KEY_LEFTCTRL, KEY_LEFTALT]));
    assert!(!is_keyboard(&vec![KEY_A, KEY_Z, KEY_LEFTCTRL]));
    assert!(!is_keyboard(&Vec::new()));
}

#[test]
fn event_node_names() {
    assert!(is_event_node("event0"));
    assert!(is_event_node("event12"));
    assert!(is_event_node("event"));
    assert!(!is_event_node("mouse0"));
    assert!(!is_event_node("even"));
    assert!(!is_event_node("by-id"));
}

#[test]
fn win_key_press_and_release_swallowed() {
    let mut f = filter_with(&[BlockableKey::Win]);
    assert!(!f.filter_event(key(KEY_LEFTMETA, KEY_PRESS)));
    assert!(f.super_held());
    assert!(!f.filter_event(key(KEY_LEFTMETA, KEY_REPEAT)));
    assert!(!f.filter_event(key(KEY_LEFTMETA, KEY_RELEASE)));
    assert!(!f.super_held());
    assert!(f.filter_event(key(KEY_A, KEY_PRESS)));
    assert!(f.filter_event(key(KEY_A, KEY_RELEASE)));
}

#[test]
fn alt_tab_swallowed_alt_forwarded() {
    let mut f = filter_with(&[BlockableKey::AltTab]);
    assert!(f.filter_event(key(KEY_LEFTALT, KEY_PRESS)));
    assert!(f.alt_held());
    assert!(!f.filter_event(key(KEY_TAB, KEY_PRESS)));
    assert!(!f.filter_event(key(KEY_TAB, KEY_RELEASE)));
    assert!(f.filter_event(key(KEY_LEFTALT, KEY_RELEASE)));
    assert!(!f.alt_held());
    assert!(f.filter_event(key(KEY_TAB, KEY_PRESS)));
    assert!(f.filter_event(key(KEY_TAB, KEY_RELEASE)));
}

#[test]
fn tab_released_after_alt_is_still_swallowed() {
    let mut f = filter_with(&[BlockableKey::AltTab]);
    assert!(f.filter_event(key(KEY_RIGHTALT, KEY_PRESS)));
    assert!(!f.filter_event(key(KEY_TAB, KEY_PRESS)));
    assert!(f.filter_event(key(KEY_RIGHTALT, KEY_RELEASE)));
    assert!(!f.filter_event(key(KEY_TAB, KEY_RELEASE)));
}

#[test]
fn repeat_after_modifier_release_is_forwarded() {
    let mut f = filter_with(&[BlockableKey::AltTab]);
    assert!(f.filter_event(key(KEY_LEFTALT, KEY_PRESS)));
    assert!(!f.filter_event(key(KEY_TAB, KEY_PRESS)));
    assert!(f.filter_event(key(KEY_LEFTALT, KEY_RELEASE)));
    assert!(f.filter_event(key(KEY_TAB, KEY_REPEAT)));
    assert!(f.filter_event(key(KEY_TAB, KEY_RELEASE)));
}

#[test]
fn ctrl_esc_and_super_letters() {
    let mut f = filter_with(&[BlockableKey::CtrlEsc, BlockableKey::WinD, BlockableKey::WinL]);
    assert!(f.filter_event(key(KEY_ESC, KEY_PRESS)));
    assert!(f.filter_event(key(KEY_ESC, KEY_RELEASE)));
    assert!(f.filter_event(key(KEY_RIGHTCTRL, KEY_PRESS)));
    assert!(f.ctrl_held());
    assert!(!f.filter_event(key(KEY_ESC, KEY_PRESS)));
    assert!(!f.filter_event(key(KEY_ESC, KEY_RELEASE)));
    assert!(f.filter_event(key(KEY_RIGHTCTRL, KEY_RELEASE)));
    // Super itself is not blocked: only Win+D and Win+L are.
    assert!(f.filter_event(key(KEY_RIGHTMETA, KEY_PRESS)));
    assert!(!f.filter_event(key(KEY_D, KEY_PRESS)));
    assert!(!f.filter_event(key(KEY_L, KEY_PRESS)));
    assert!(f.filter_event(key(KEY_E, KEY_PRESS)));
    assert!(f.filter_event(key(KEY_R, KEY_PRESS)));
    assert!(!f.filter_event(key(KEY_D, KEY_RELEASE)));
}

#[test]
fn should_block_reads_modifiers() {
    let mut f = filter_with(&[BlockableKey::AltF4, BlockableKey::AltEsc, BlockableKey::WinTab, BlockableKey::WinE, BlockableKey::WinR]);
    assert!(!f.should_block(KEY_F4));
    f.update_modifier(KEY_LEFTALT, true);
    assert!(f.should_block(KEY_F4));
    assert!(f.should_block(KEY_ESC));
    assert!(!f.should_block(KEY_TAB));
    f.update_modifier(KEY_LEFTALT, false);
    f.update_modifier(KEY_LEFTMETA, true);
    assert!(f.should_block(KEY_TAB));
    assert!(f.should_block(KEY_E));
    assert!(f.should_block(KEY_R));
    assert!(!f.should_block(KEY_LEFTMETA));
    f.update_modifier(KEY_A, true);
    assert!(f.super_held());
}

#[test]
fn sync_dropped_other_events_forwarded() {
    let mut f = filter_with(&[BlockableKey::Win]);
    assert!(!f.filter_event(sync()));
    let rel = InputRecord { event_type: 2, code: 0, value: 5 };
    assert!(f.filter_event(rel));
    let msc = InputRecord { event_type: 4, code: 4, value: 125 };
    assert!(f.filter_event(msc));
}

#[test]
fn batch_forwards_in_order() {
    let mut f = filter_with(&[BlockableKey::Win]);
    let events = vec![
        key(KEY_A, KEY_PRESS),
        sync(),
        key(KEY_LEFTMETA, KEY_PRESS),
        sync(),
        key(KEY_A, KEY_RELEASE),
        key(KEY_LEFTMETA, KEY_RELEASE),
        sync(),
    ];
    let out = f.filter_batch(&events);
    assert_eq!(out, vec![key(KEY_A, KEY_PRESS), key(KEY_A, KEY_RELEASE)]);
}

#[test]
fn nothing_blocked_passes_everything_but_sync() {
    let mut f = filter_with(&[]);
    let events = vec![
        key(KEY_LEFTMETA, KEY_PRESS),
        key(KEY_TAB, KEY_PRESS),
        sync(),
        key(KEY_TAB, KEY_RELEASE),
        key(KEY_LEFTMETA, KEY_RELEASE),
    ];
    let out = f.filter_batch(&events);
    assert_eq!(
        out,
        vec![key(KEY_LEFTMETA, KEY_PRESS), key(KEY_TAB, KEY_PRESS), key(KEY_TAB, KEY_RELEASE), key(KEY_LEFTMETA, KEY_RELEASE)]
    );
}

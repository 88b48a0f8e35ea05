use kiosk_browser::key_set::KeySet;
use kiosk_browser::keys::{resolve_blocked_keys, unknown_key_message, BlockableKey};

const ALL: [BlockableKey; 10] = [
    BlockableKey::Win,
    BlockableKey::AltTab,
    BlockableKey::AltF4,
    BlockableKey::AltEsc,
    BlockableKey::CtrlEsc,
    BlockableKey::WinTab,
    BlockableKey::WinD,
    BlockableKey::WinE,
    BlockableKey::WinR,
    BlockableKey::WinL,
];

fn strings(v: &[&str]) -> Vec<String> {
    v.iter().map(|s| s.to_string()).collect()
}

#[test]
fn all_contains_every_key() {
    let all = BlockableKey::all();
    for k in ALL.iter() {
        assert!(all.contains(*k));
    }
    assert_eq!(all.to_vec(), ALL.to_vec());
    assert!(!all.is_empty());
}

#[test]
fn canonical_names() {
    let names: Vec<&str> = ALL.iter().map(|k| k.as_str()).collect();
    assert_eq!(
        names,
        vec!["win", "alt+tab", "alt+f4", "alt+esc", "ctrl+esc", "win+tab", "win+d", "win+e", "win+r", "win+l"]
    );
}

#[test]
fn canonical_names_round_trip() {
    for k in ALL.iter() {
        assert_eq!(BlockableKey::from_str(k.as_str()), Ok(*k));
    }
}

#[test]
fn aliases_parse() {
    let cases: [(&str, BlockableKey); 16] = [
        ("super", BlockableKey::Win),
        ("meta", BlockableKey::Win),
        ("alttab", BlockableKey::AltTab),
        ("altf4", BlockableKey::AltF4),
        ("altesc", BlockableKey::AltEsc),
        ("ctrlesc", BlockableKey::CtrlEsc),
        ("wintab", BlockableKey::WinTab),
        ("super+tab", BlockableKey::WinTab),
        ("wind", BlockableKey::WinD),
        ("super+d", BlockableKey::WinD),
        ("wine", BlockableKey::WinE),
        ("super+e", BlockableKey::WinE),
        ("winr", BlockableKey::WinR),
        ("super+r", BlockableKey::WinR),
        ("winl", BlockableKey::WinL),
        ("super+l", BlockableKey::WinL),
    ];
    for (name, key) in cases.iter() {
        assert_eq!(BlockableKey::from_str(name), Ok(*key));
    }
}

#[test]
fn parse_ignores_case_and_surrounding_space() {
    assert_eq!(BlockableKey::from_str("  Alt+Tab \t"), Ok(BlockableKey::AltTab));
    assert_eq!(BlockableKey::from_str("SUPER"), Ok(BlockableKey::Win));
    assert_eq!(BlockableKey::from_str("\nWin+L\n"), Ok(BlockableKey::WinL));
    assert_eq!(BlockableKey::from_str("\u{3000}win\u{a0}"), Ok(BlockableKey::Win));
}

#[test]
fn unknown_names_are_errors() {
    assert_eq!(BlockableKey::from_str("foo"), Err("Unknown key: 'foo'".to_string()));
    assert_eq!(BlockableKey::from_str("  FOO  "), Err("Unknown key: 'foo'".to_string()));
    assert_eq!(BlockableKey::from_str(""), Err("Unknown key: ''".to_string()));
    assert_eq!(BlockableKey::from_str("ÄLT+TAB"), Err("Unknown key: 'ält+tab'".to_string()));
    assert_eq!(BlockableKey::from_str("win +tab"), Err("Unknown key: 'win +tab'".to_string()));
}

#[test]
fn parse_normalized_needs_exact_name() {
    assert_eq!(BlockableKey::parse_normalized("win"), Some(BlockableKey::Win));
    assert_eq!(BlockableKey::parse_normalized("WIN"), None);
    assert_eq!(BlockableKey::parse_normalized(" win"), None);
}

#[test]
fn unknown_key_message_text() {
    assert_eq!(unknown_key_message("x"), "Unknown key: 'x'");
}

#[test]
fn index_round_trip() {
    for (i, k) in ALL.iter().enumerate() {
        assert_eq!(k.index(), i);
        assert_eq!(BlockableKey::from_index(i), *k);
    }
}

#[test]
fn preset_kiosk_blocks_all() {
    let set = resolve_blocked_keys(&Some(strings(&["win"])), &Some("kiosk".to_string()));
    assert_eq!(set.to_vec(), ALL.to_vec());
}

#[test]
fn preset_none_blocks_nothing() {
    let set = resolve_blocked_keys(&Some(strings(&["win", "alt+tab"])), &Some("none".to_string()));
    assert!(set.is_empty());
    let other = resolve_blocked_keys(&None, &Some("Kiosk".to_string()));
    assert!(other.is_empty());
}

#[test]
fn no_arguments_block_nothing() {
    assert!(resolve_blocked_keys(&None, &None).is_empty());
    assert!(resolve_blocked_keys(&Some(Vec::new()), &None).is_empty());
}

#[test]
fn listed_keys_are_blocked_and_unknown_skipped() {
    let set = resolve_blocked_keys(&Some(strings(&["win", "ALT+F4", "bogus", " win+d ", "win"])), &None);
    assert_eq!(set.to_vec(), vec![BlockableKey::Win, BlockableKey::AltF4, BlockableKey::WinD]);
}

#[test]
fn key_set_operations() {
    let mut set = KeySet::new();
    assert!(set.is_empty());
    set.insert(BlockableKey::WinE);
    set.insert(BlockableKey::AltTab);
    set.insert(BlockableKey::WinE);
    assert!(!set.is_empty());
    assert!(set.contains(BlockableKey::WinE));
    assert!(!set.contains(BlockableKey::WinR));
    assert_eq!(set.to_vec(), vec![BlockableKey::AltTab, BlockableKey::WinE]);
    assert_eq!(KeySet::full().to_vec().len(), 10);
}

#[test]
fn parsing_the_normalized_name_changes_nothing() {
    for name in ["  ALT+F4\t", "Win+D", " Super ", "bogus", "", "CTRL+ESC"].iter() {
        let normalized = name.trim().to_lowercase();
        assert_eq!(BlockableKey::from_str(name), BlockableKey::from_str(&normalized));
    }
    assert_eq!(BlockableKey::from_str("  ALT+F4\t"), Ok(BlockableKey::AltF4));
    assert_eq!(BlockableKey::from_str("Win+D"), Ok(BlockableKey::WinD));
}

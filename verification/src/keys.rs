use vstd::prelude::*;
use vstd::string::*;
use crate::key_set::{all_keys, KeySet};
use crate::text::{
    all_ascii, ascii_lowercase, is_white_space, lemma_ascii_lowercase,
    lemma_trim_fixes_no_edge_space, lemma_trimmed_has_no_edge_space, str_eq,
    to_lowercase_string, trim_end, trim_start, trim_str, trimmed, unicode_lowercase,
};

verus! {

/// A system keyboard shortcut that the kiosk can block.
#[derive(Debug, Clone, Copy, PartialEq, Eq, Hash, Structural)]
pub enum BlockableKey {
    /// Left/Right Windows key (Super on Linux)
    Win,
    /// Alt + Tab (window switcher)
    AltTab,
    /// Alt + F4 (close window)
    AltF4,
    /// Alt + Escape
    AltEsc,
    /// Ctrl + Escape (Start menu on Windows)
    CtrlEsc,
    /// Win + Tab (Task View on Windows)
    WinTab,
    /// Win + D (show desktop)
    WinD,
    /// Win + E (open explorer)
    WinE,
    /// Win + R (run dialog)
    WinR,
    /// Win + L (lock screen)
    WinL,
}

/// Number of blockable shortcuts.
pub const KEY_COUNT: usize = 10;

impl BlockableKey {
    /// Position of the shortcut in declaration order.
    pub open spec fn spec_index(self) -> nat {
        match self {
            BlockableKey::Win => 0,
            BlockableKey::AltTab => 1,
            BlockableKey::AltF4 => 2,
            BlockableKey::AltEsc => 3,
            BlockableKey::CtrlEsc => 4,
            BlockableKey::WinTab => 5,
            BlockableKey::WinD => 6,
            BlockableKey::WinE => 7,
            BlockableKey::WinR => 8,
            BlockableKey::WinL => 9,
        }
    }

    /// The shortcut at a position in declaration order.
    pub open spec fn spec_from_index(i: nat) -> BlockableKey {
        if i == 0 {
            BlockableKey::Win
        } else if i == 1 {
            BlockableKey::AltTab
        } else if i == 2 {
            BlockableKey::AltF4
        } else if i == 3 {
            BlockableKey::AltEsc
        } else if i == 4 {
            BlockableKey::CtrlEsc
        } else if i == 5 {
            BlockableKey::WinTab
        } else if i == 6 {
            BlockableKey::WinD
        } else if i == 7 {
            BlockableKey::WinE
        } else if i == 8 {
            BlockableKey::WinR
        } else {
            BlockableKey::WinL
        }
    }

    /// The canonical command-line name of the shortcut.
    pub open spec fn spec_name(self) -> Seq<char> {
        match self {
            BlockableKey::Win => seq!['w', 'i', 'n'],
            BlockableKey::AltTab => seq!['a', 'l', 't', '+', 't', 'a', 'b'],
            BlockableKey::AltF4 => seq!['a', 'l', 't', '+', 'f', '4'],
            BlockableKey::AltEsc => seq!['a', 'l', 't', '+', 'e', 's', 'c'],
            BlockableKey::CtrlEsc => seq!['c', 't', 'r', 'l', '+', 'e', 's', 'c'],
            BlockableKey::WinTab => seq!['w', 'i', 'n', '+', 't', 'a', 'b'],
            BlockableKey::WinD => seq!['w', 'i', 'n', '+', 'd'],
            BlockableKey::WinE => seq!['w', 'i', 'n', '+', 'e'],
            BlockableKey::WinR => seq!['w', 'i', 'n', '+', 'r'],
            BlockableKey::WinL => seq!['w', 'i', 'n', '+', 'l'],
        }
    }

    /// Position of the shortcut in declaration order.
    pub fn index(&self) -> (i: usize)
        ensures
            i == self.spec_index(),
            i < KEY_COUNT,
    {
        match self {
            BlockableKey::Win => 0,
            BlockableKey::AltTab => 1,
            BlockableKey::AltF4 => 2,
            BlockableKey::AltEsc => 3,
            BlockableKey::CtrlEsc => 4,
            BlockableKey::WinTab => 5,
            BlockableKey::WinD => 6,
            BlockableKey::WinE => 7,
            BlockableKey::WinR => 8,
            BlockableKey::WinL => 9,
        }
    }

    /// The shortcut at position `i` in declaration order.
    pub fn from_index(i: usize) -> (k: BlockableKey)
        requires
            i < KEY_COUNT,
        ensures
            k.spec_index() == i,
            k == Self::spec_from_index(i as nat),
    {
        if i == 0 {
            BlockableKey::Win
        } else if i == 1 {
            BlockableKey::AltTab
        } else if i == 2 {
            BlockableKey::AltF4
        } else if i == 3 {
            BlockableKey::AltEsc
        } else if i == 4 {
            BlockableKey::CtrlEsc
        } else if i == 5 {
            BlockableKey::WinTab
        } else if i == 6 {
            BlockableKey::WinD
        } else if i == 7 {
            BlockableKey::WinE
        } else if i == 8 {
            BlockableKey::WinR
        } else {
            BlockableKey::WinL
        }
    }

    /// The canonical command-line name of the shortcut (`"win"`, `"alt+tab"`, ...).
    pub fn as_str(&self) -> (s: &'static str)
        ensures
            s@ == self.spec_name(),
    {
        match self {
            BlockableKey::Win => {
                proof { reveal_strlit("win"); }
                "win"
            },
            BlockableKey::AltTab => {
                proof { reveal_strlit("alt+tab"); }
                "alt+tab"
            },
            BlockableKey::AltF4 => {
                proof { reveal_strlit("alt+f4"); }
                "alt+f4"
            },
            BlockableKey::AltEsc => {
                proof { reveal_strlit("alt+esc"); }
                "alt+esc"
            },
            BlockableKey::CtrlEsc => {
                proof { reveal_strlit("ctrl+esc"); }
                "ctrl+esc"
            },
            BlockableKey::WinTab => {
                proof { reveal_strlit("win+tab"); }
                "win+tab"
            },
            BlockableKey::WinD => {
                proof { reveal_strlit("win+d"); }
                "win+d"
            },
            BlockableKey::WinE => {
                proof { reveal_strlit("win+e"); }
                "win+e"
            },
            BlockableKey::WinR => {
                proof { reveal_strlit("win+r"); }
                "win+r"
            },
            BlockableKey::WinL => {
                proof { reveal_strlit("win+l"); }
                "win+l"
            },
        }
    }
}

/// The shortcut that a lower-case, trimmed command-line name stands for.
pub open spec fn key_for_name(s: Seq<char>) -> Option<BlockableKey> {
    if s == seq!['w', 'i', 'n'] || s == seq!['s', 'u', 'p', 'e', 'r'] || s == seq!['m', 'e', 't', 'a'] {
        Some(BlockableKey::Win)
    } else if s == seq!['a', 'l', 't', '+', 't', 'a', 'b'] || s == seq!['a', 'l', 't', 't', 'a', 'b'] {
        Some(BlockableKey::AltTab)
    } else if s == seq!['a', 'l', 't', '+', 'f', '4'] || s == seq!['a', 'l', 't', 'f', '4'] {
        Some(BlockableKey::AltF4)
    } else if s == seq!['a', 'l', 't', '+', 'e', 's', 'c'] || s == seq!['a', 'l', 't', 'e', 's', 'c'] {
        Some(BlockableKey::AltEsc)
    } else if s == seq!['c', 't', 'r', 'l', '+', 'e', 's', 'c'] || s == seq![
        'c',
        't',
        'r',
        'l',
        'e',
        's',
        'c',
    ] {
        Some(BlockableKey::CtrlEsc)
    } else if s == seq!['w', 'i', 'n', '+', 't', 'a', 'b'] || s == seq!['w', 'i', 'n', 't', 'a', 'b']
        || s == seq!['s', 'u', 'p', 'e', 'r', '+', 't', 'a', 'b'] {
        Some(BlockableKey::WinTab)
    } else if s == seq!['w', 'i', 'n', '+', 'd'] || s == seq!['w', 'i', 'n', 'd'] || s == seq![
        's',
        'u',
        'p',
        'e',
        'r',
        '+',
        'd',
    ] {
        Some(BlockableKey::WinD)
    } else if s == seq!['w', 'i', 'n', '+', 'e'] || s == seq!['w', 'i', 'n', 'e'] || s == seq![
        's',
        'u',
        'p',
        'e',
        'r',
        '+',
        'e',
    ] {
        Some(BlockableKey::WinE)
    } else if s == seq!['w', 'i', 'n', '+', 'r'] || s == seq!['w', 'i', 'n', 'r'] || s == seq![
        's',
        'u',
        'p',
        'e',
        'r',
        '+',
        'r',
    ] {
        Some(BlockableKey::WinR)
    } else if s == seq!['w', 'i', 'n', '+', 'l'] || s == seq!['w', 'i', 'n', 'l'] || s == seq![
        's',
        'u',
        'p',
        'e',
        'r',
        '+',
        'l',
    ] {
        Some(BlockableKey::WinL)
    } else {
        None
    }
}

/// A command-line key name as it is matched: trimmed, then lower-cased
/// (an all-ASCII name is lower-cased character by character).
pub open spec fn normalized_name(s: Seq<char>) -> Seq<char> {
    let t = trimmed(s);
    if all_ascii(t) {
        ascii_lowercase(t)
    } else {
        unicode_lowercase(t)
    }
}

/// The error text for a name that no shortcut answers to.
pub open spec fn unknown_key_text(name: Seq<char>) -> Seq<char> {
    seq!['U', 'n', 'k', 'n', 'o', 'w', 'n', ' ', 'k', 'e', 'y', ':', ' ', '\''] + name + seq!['\'']
}

/// The shortcuts that a list of command-line names selects: each name that
/// parses contributes its shortcut, the others are skipped.
pub open spec fn parsed_keys(names: Seq<Seq<char>>) -> Set<BlockableKey> {
    Set::new(
        |k: BlockableKey|
            exists|i: int| 0 <= i < names.len() && key_for_name(normalized_name(names[i])) == Some(k),
    )
}

/// The preset name that selects every shortcut.
pub open spec fn kiosk_preset() -> Seq<char> {
    seq!['k', 'i', 'o', 's', 'k']
}

/// The shortcuts that a preset selects: `"kiosk"` selects all, any other none.
pub open spec fn preset_keys(preset: Seq<char>) -> Set<BlockableKey> {
    if preset == kiosk_preset() {
        all_keys()
    } else {
        Set::empty()
    }
}

/// The shortcuts that the command line selects: a preset wins over a list of
/// names; with neither, nothing is blocked.
pub open spec fn resolved_keys(names: Option<Seq<Seq<char>>>, preset: Option<Seq<char>>) -> Set<
    BlockableKey,
> {
    match preset {
        Some(p) => preset_keys(p),
        None => match names {
            Some(ns) => parsed_keys(ns),
            None => Set::empty(),
        },
    }
}

impl BlockableKey {
    /// Every blockable shortcut.
    pub fn all() -> (s: KeySet)
        ensures
            s@ == all_keys(),
    {
        KeySet::full()
    }

    /// The shortcut that an already trimmed, lower-case name stands for.
    pub fn parse_normalized(name: &str) -> (r: Option<BlockableKey>)
        ensures
            r == key_for_name(name@),
    {
        proof {
            reveal_strlit("win");
            reveal_strlit("super");
            reveal_strlit("meta");
            reveal_strlit("alt+tab");
            reveal_strlit("alttab");
            reveal_strlit("alt+f4");
            reveal_strlit("altf4");
            reveal_strlit("alt+esc");
            reveal_strlit("altesc");
            reveal_strlit("ctrl+esc");
            reveal_strlit("ctrlesc");
            reveal_strlit("win+tab");
            reveal_strlit("wintab");
            reveal_strlit("super+tab");
            reveal_strlit("win+d");
            reveal_strlit("wind");
            reveal_strlit("super+d");
            reveal_strlit("win+e");
            reveal_strlit("wine");
            reveal_strlit("super+e");
            reveal_strlit("win+r");
            reveal_strlit("winr");
            reveal_strlit("super+r");
            reveal_strlit("win+l");
            reveal_strlit("winl");
            reveal_strlit("super+l");
            assert("win"@ =~= seq!['w', 'i', 'n']);
            assert("super"@ =~= seq!['s', 'u', 'p', 'e', 'r']);
            assert("meta"@ =~= seq!['m', 'e', 't', 'a']);
            assert("alt+tab"@ =~= seq!['a', 'l', 't', '+', 't', 'a', 'b']);
            assert("alttab"@ =~= seq!['a', 'l', 't', 't', 'a', 'b']);
            assert("alt+f4"@ =~= seq!['a', 'l', 't', '+', 'f', '4']);
            assert("altf4"@ =~= seq!['a', 'l', 't', 'f', '4']);
            assert("alt+esc"@ =~= seq!['a', 'l', 't', '+', 'e', 's', 'c']);
            assert("altesc"@ =~= seq!['a', 'l', 't', 'e', 's', 'c']);
            assert("ctrl+esc"@ =~= seq!['c', 't', 'r', 'l', '+', 'e', 's', 'c']);
            assert("ctrlesc"@ =~= seq!['c', 't', 'r', 'l', 'e', 's', 'c']);
            assert("win+tab"@ =~= seq!['w', 'i', 'n', '+', 't', 'a', 'b']);
            assert("wintab"@ =~= seq!['w', 'i', 'n', 't', 'a', 'b']);
            assert("super+tab"@ =~= seq!['s', 'u', 'p', 'e', 'r', '+', 't', 'a', 'b']);
            assert("win+d"@ =~= seq!['w', 'i', 'n', '+', 'd']);
            assert("wind"@ =~= seq!['w', 'i', 'n', 'd']);
            assert("super+d"@ =~= seq!['s', 'u', 'p', 'e', 'r', '+', 'd']);
            assert("win+e"@ =~= seq!['w', 'i', 'n', '+', 'e']);
            assert("wine"@ =~= seq!['w', 'i', 'n', 'e']);
            assert("super+e"@ =~= seq!['s', 'u', 'p', 'e', 'r', '+', 'e']);
            assert("win+r"@ =~= seq!['w', 'i', 'n', '+', 'r']);
            assert("winr"@ =~= seq!['w', 'i', 'n', 'r']);
            assert("super+r"@ =~= seq!['s', 'u', 'p', 'e', 'r', '+', 'r']);
            assert("win+l"@ =~= seq!['w', 'i', 'n', '+', 'l']);
            assert("winl"@ =~= seq!['w', 'i', 'n', 'l']);
            assert("super+l"@ =~= seq!['s', 'u', 'p', 'e', 'r', '+', 'l']);
        }
        if str_eq(name, "win") || str_eq(name, "super") || str_eq(name, "meta") {
            Some(BlockableKey::Win)
        } else if str_eq(name, "alt+tab") || str_eq(name, "alttab") {
            Some(BlockableKey::AltTab)
        } else if str_eq(name, "alt+f4") || str_eq(name, "altf4") {
            Some(BlockableKey::AltF4)
        } else if str_eq(name, "alt+esc") || str_eq(name, "altesc") {
            Some(BlockableKey::AltEsc)
        } else if str_eq(name, "ctrl+esc") || str_eq(name, "ctrlesc") {
            Some(BlockableKey::CtrlEsc)
        } else if str_eq(name, "win+tab") || str_eq(name, "wintab") || str_eq(name, "super+tab") {
            Some(BlockableKey::WinTab)
        } else if str_eq(name, "win+d") || str_eq(name, "wind") || str_eq(name, "super+d") {
            Some(BlockableKey::WinD)
        } else if str_eq(name, "win+e") || str_eq(name, "wine") || str_eq(name, "super+e") {
            Some(BlockableKey::WinE)
        } else if str_eq(name, "win+r") || str_eq(name, "winr") || str_eq(name, "super+r") {
            Some(BlockableKey::WinR)
        } else if str_eq(name, "win+l") || str_eq(name, "winl") || str_eq(name, "super+l") {
            Some(BlockableKey::WinL)
        } else {
            None
        }
    }

    /// Parses a command-line key name: surrounding white space is ignored and
    /// letters are matched without regard to case. An unknown name gives
    /// `Unknown key: '<name>'`, the name trimmed and lower-cased.
    pub fn from_str(s: &str) -> (r: Result<BlockableKey, String>)
        ensures
            match r {
                Ok(k) => key_for_name(normalized_name(s@)) == Some(k),
                Err(e) => key_for_name(normalized_name(s@)) is None && e@ == unknown_key_text(
                    normalized_name(s@),
                ),
            },
    {
        let name = to_lowercase_string(trim_str(s));
        match Self::parse_normalized(name.as_str()) {
            Some(k) => Ok(k),
            None => Err(unknown_key_message(name.as_str())),
        }
    }
}

/// `Unknown key: '<name>'`.
pub fn unknown_key_message(name: &str) -> (m: String)
    ensures
        m@ == unknown_key_text(name@),
{
    proof {
        reveal_strlit("Unknown key: '");
        reveal_strlit("'");
    }
    let mut m = String::from_str("Unknown key: '");
    m.append(name);
    m.append("'");
    m
}

/// Resolves the set of shortcuts to block from the command line: a preset
/// (`"kiosk"` for all, anything else for none) takes precedence over the list
/// of key names; names that do not parse are skipped.
pub fn resolve_blocked_keys(block_keys: &Option<Vec<String>>, preset: &Option<String>) -> (r: KeySet)
    ensures
        r@ == resolved_keys(
            match block_keys {
                Some(v) => Some(v.deep_view()),
                None => None,
            },
            match preset {
                Some(p) => Some(p@),
                None => None,
            },
        ),
{
    if let Some(preset_name) = preset {
        proof {
            reveal_strlit("kiosk");
            assert("kiosk"@ =~= kiosk_preset());
        }
        if str_eq(preset_name.as_str(), "kiosk") {
            return BlockableKey::all();
        } else {
            return KeySet::new();
        }
    }
    if let Some(keys) = block_keys {
        let mut set = KeySet::new();
        let n = keys.len();
        let ghost names = keys.deep_view();
        let mut i: usize = 0;
        while i < n
            invariant
                n == keys@.len(),
                names == keys.deep_view(),
                i <= n,
                set@ == parsed_keys(names.take(i as int)),
            decreases n - i,
        {
            let ghost before = set@;
            let parsed = BlockableKey::from_str(keys[i].as_str());
            let ghost found = key_for_name(normalized_name(names[i as int]));
            proof {
                assert(names[i as int] == keys@[i as int]@);
            }
            match parsed {
                Ok(key) => {
                    set.insert(key);
                    assert(found == Some(key));
                    assert(set@ == before.insert(key));
                },
                Err(_) => {
                    assert(found is None);
                },
            }
            proof {
                let prefix = names.take(i as int);
                let next = names.take(i + 1);
                assert(next[i as int] == names[i as int]);
                assert forall|k: BlockableKey| #[trigger] set@.contains(k) == parsed_keys(next).contains(k) by {
                    if before.contains(k) {
                        let j = choose|j: int| 0 <= j < prefix.len() && key_for_name(normalized_name(prefix[j])) == Some(k);
                        assert(next[j] == prefix[j]);
                        assert(parsed_keys(next).contains(k));
                    }
                    if found == Some(k) {
                        assert(key_for_name(normalized_name(next[i as int])) == Some(k));
                        assert(parsed_keys(next).contains(k));
                    }
                    if parsed_keys(next).contains(k) {
                        let j = choose|j: int| 0 <= j < next.len() && key_for_name(normalized_name(next[j])) == Some(k);
                        if j < i {
                            assert(prefix[j] == next[j]);
                            assert(parsed_keys(prefix).contains(k));
                        } else {
                            assert(found == Some(k));
                        }
                    }
                }
                assert(set@ =~= parsed_keys(next));
            }
            i = i + 1;
        }
        proof {
            assert(names.take(n as int) =~= names);
        }
        return set;
    }
    KeySet::new()
}

/// The warnings for a list of command-line names, in order: one
/// `Unknown key: '<name>'` for each name that does not parse.
pub open spec fn unknown_name_warnings(names: Seq<Seq<char>>) -> Seq<Seq<char>>
    decreases names.len(),
{
    if names.len() == 0 {
        Seq::empty()
    } else {
        let prev = unknown_name_warnings(names.drop_last());
        let n = normalized_name(names.last());
        if key_for_name(n) is None {
            prev.push(unknown_key_text(n))
        } else {
            prev
        }
    }
}

/// The warnings that resolving the command line gives: only a list of names
/// without a preset is parsed, so only it can warn.
pub open spec fn resolve_warnings(names: Option<Seq<Seq<char>>>, preset: Option<Seq<char>>) -> Seq<
    Seq<char>,
> {
    match preset {
        Some(_) => Seq::empty(),
        None => match names {
            Some(ns) => unknown_name_warnings(ns),
            None => Seq::empty(),
        },
    }
}

/// The warnings to log when resolving the command line into the shortcuts to
/// block: one per key name that `resolve_blocked_keys` skips, in order.
pub fn blocked_key_warnings(block_keys: &Option<Vec<String>>, preset: &Option<String>) -> (r: Vec<
    String,
>)
    ensures
        r.deep_view() == resolve_warnings(
            match block_keys {
                Some(v) => Some(v.deep_view()),
                None => None,
            },
            match preset {
                Some(p) => Some(p@),
                None => None,
            },
        ),
{
    let mut out: Vec<String> = Vec::new();
    if preset.is_some() {
        assert(out.deep_view() =~= Seq::<Seq<char>>::empty());
        return out;
    }
    if let Some(keys) = block_keys {
        let n = keys.len();
        let ghost names = keys.deep_view();
        let mut i: usize = 0;
        while i < n
            invariant
                n == keys@.len(),
                names == keys.deep_view(),
                i <= n,
                out.deep_view() == unknown_name_warnings(names.take(i as int)),
            decreases n - i,
        {
            let ghost before = out.deep_view();
            let parsed = BlockableKey::from_str(keys[i].as_str());
            proof {
                assert(names[i as int] == keys@[i as int]@);
                assert(names.take(i + 1).drop_last() =~= names.take(i as int));
                assert(names.take(i + 1).last() == names[i as int]);
            }
            match parsed {
                Ok(_) => {},
                Err(e) => {
                    out.push(e);
                    assert(out.deep_view() =~= before.push(e@));
                },
            }
            i = i + 1;
        }
        proof {
            assert(names.take(n as int) =~= names);
        }
        return out;
    }
    assert(out.deep_view() =~= Seq::<Seq<char>>::empty());
    out
}

/// Each shortcut's canonical name (the one `as_str` gives) parses back to that
/// shortcut.
pub proof fn lemma_name_parses_to_key(k: BlockableKey)
    ensures
        key_for_name(normalized_name(k.spec_name())) == Some(k),
{
    let s = k.spec_name();
    assert(!is_white_space(s[0]));
    assert(trim_start(s) == s);
    assert(!is_white_space(s.last()));
    assert(trim_end(s) == s);
    assert(trimmed(s) == s);
    assert(all_ascii(s));
    assert(ascii_lowercase(s) =~= s);
}

/// No two shortcuts share a canonical name.
pub proof fn lemma_names_distinct(k1: BlockableKey, k2: BlockableKey)
    requires
        k1.spec_name() == k2.spec_name(),
    ensures
        k1 == k2,
{
    lemma_name_parses_to_key(k1);
    lemma_name_parses_to_key(k2);
}

/// Listing the canonical names of some shortcuts selects exactly those shortcuts.
pub proof fn lemma_canonical_names_resolve(ks: Seq<BlockableKey>)
    ensures
        parsed_keys(ks.map_values(|k: BlockableKey| k.spec_name())) == ks.to_set(),
{
    let names = ks.map_values(|k: BlockableKey| k.spec_name());
    assert forall|k: BlockableKey| #[trigger] parsed_keys(names).contains(k) == ks.to_set().contains(k) by {
        if ks.to_set().contains(k) {
            let i = choose|i: int| 0 <= i < ks.len() && ks[i] == k;
            lemma_name_parses_to_key(k);
            assert(names[i] == k.spec_name());
        }
        if parsed_keys(names).contains(k) {
            let i = choose|i: int| 0 <= i < names.len() && key_for_name(normalized_name(names[i])) == Some(k);
            lemma_name_parses_to_key(ks[i]);
            assert(ks.contains(k));
        }
    }
    assert(parsed_keys(names) =~= ks.to_set());
}

/// A preset decides alone: `"kiosk"` blocks every shortcut and any other
/// preset blocks none, whatever key names are also given.
pub proof fn lemma_preset_overrides_names(names: Option<Seq<Seq<char>>>, preset: Seq<char>)
    ensures
        preset == kiosk_preset() ==> resolved_keys(names, Some(preset)) == all_keys(),
        preset != kiosk_preset() ==> resolved_keys(names, Some(preset)) == Set::<BlockableKey>::empty(),
{
}

/// Without a preset or key names nothing is blocked.
pub proof fn lemma_nothing_requested_blocks_nothing()
    ensures
        resolved_keys(None, None) == Set::<BlockableKey>::empty(),
{
}

/// Parsing a name gives the same as parsing its trimmed, lower-cased form:
/// for names whose trimmed text is ASCII, normalizing twice is normalizing
/// once.
pub proof fn lemma_normalizing_is_idempotent(s: Seq<char>)
    requires
        all_ascii(trimmed(s)),
    ensures
        normalized_name(normalized_name(s)) == normalized_name(s),
        key_for_name(normalized_name(normalized_name(s))) == key_for_name(normalized_name(s)),
{
    let t = trimmed(s);
    lemma_trimmed_has_no_edge_space(s);
    lemma_ascii_lowercase(t);
    let u = ascii_lowercase(t);
    lemma_trim_fixes_no_edge_space(u);
}

/// Every name a shortcut answers to is already trimmed and lower-case.
pub proof fn lemma_alias_is_normalized(s: Seq<char>)
    requires
        key_for_name(s) is Some,
    ensures
        normalized_name(s) == s,
{
    assert(all_ascii(s));
    assert(s.len() > 0 && !is_white_space(s[0]) && !is_white_space(s.last()));
    lemma_trim_fixes_no_edge_space(s);
    assert(ascii_lowercase(s) =~= s);
}

/// Without a preset, a shortcut is blocked exactly when one of the names
/// parses to it (as `from_str` parses: trimmed, lower-cased, any alias).
pub proof fn lemma_names_select_what_they_parse_to(names: Seq<Seq<char>>, k: BlockableKey)
    ensures
        resolved_keys(Some(names), None).contains(k) <==> exists|i: int|
            0 <= i < names.len() && #[trigger] key_for_name(normalized_name(names[i])) == Some(k),
{
}

/// Naming any alias of a shortcut (`super`, `meta`, `alttab`, `super+tab`,
/// ...) without a preset blocks that shortcut.
pub proof fn lemma_any_alias_selects_key(names: Seq<Seq<char>>, i: int, k: BlockableKey)
    requires
        0 <= i < names.len(),
        key_for_name(names[i]) == Some(k),
    ensures
        resolved_keys(Some(names), None).contains(k),
{
    lemma_alias_is_normalized(names[i]);
    assert(key_for_name(normalized_name(names[i])) == Some(k));
}

/// Every listed alias spelling of the Windows key blocks it.
pub proof fn lemma_win_aliases(names: Seq<Seq<char>>)
    requires
        names.contains(seq!['s', 'u', 'p', 'e', 'r']) || names.contains(seq!['m', 'e', 't', 'a'])
            || names.contains(seq!['w', 'i', 'n']),
    ensures
        resolved_keys(Some(names), None).contains(BlockableKey::Win),
{
    let i = choose|i: int| 0 <= i < names.len() && (names[i] == seq!['s', 'u', 'p', 'e', 'r'] || names[i] == seq!['m', 'e', 't', 'a'] || names[i] == seq!['w', 'i', 'n']);
    lemma_any_alias_selects_key(names, i, BlockableKey::Win);
}

} // verus!

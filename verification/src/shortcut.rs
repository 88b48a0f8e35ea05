use vstd::prelude::*;
use crate::key_set::KeySet;
use crate::keys::BlockableKey;

verus! {

/// The part a physical key plays in the blockable shortcuts.
#[derive(Debug, Clone, Copy, PartialEq, Eq, Structural)]
pub enum KeyRole {
    /// Left or right Windows / Super / Meta key.
    Meta,
    Tab,
    F4,
    Escape,
    LetterD,
    LetterE,
    LetterR,
    LetterL,
    /// Any key that no shortcut ends with.
    Other,
}

/// The modifier that must be held for a shortcut to fire.
#[derive(Debug, Clone, Copy, PartialEq, Eq, Structural)]
pub enum Modifier {
    /// Fires whatever modifiers are held.
    AnyState,
    Alt,
    Ctrl,
    Super,
}

/// The key that completes a shortcut.
pub open spec fn spec_trigger_role(k: BlockableKey) -> KeyRole {
    match k {
        BlockableKey::Win => KeyRole::Meta,
        BlockableKey::AltTab => KeyRole::Tab,
        BlockableKey::AltF4 => KeyRole::F4,
        BlockableKey::AltEsc => KeyRole::Escape,
        BlockableKey::CtrlEsc => KeyRole::Escape,
        BlockableKey::WinTab => KeyRole::Tab,
        BlockableKey::WinD => KeyRole::LetterD,
        BlockableKey::WinE => KeyRole::LetterE,
        BlockableKey::WinR => KeyRole::LetterR,
        BlockableKey::WinL => KeyRole::LetterL,
    }
}

/// The modifier a shortcut needs.
pub open spec fn spec_required_modifier(k: BlockableKey) -> Modifier {
    match k {
        BlockableKey::Win => Modifier::AnyState,
        BlockableKey::AltTab => Modifier::Alt,
        BlockableKey::AltF4 => Modifier::Alt,
        BlockableKey::AltEsc => Modifier::Alt,
        BlockableKey::CtrlEsc => Modifier::Ctrl,
        BlockableKey::WinTab => Modifier::Super,
        BlockableKey::WinD => Modifier::Super,
        BlockableKey::WinE => Modifier::Super,
        BlockableKey::WinR => Modifier::Super,
        BlockableKey::WinL => Modifier::Super,
    }
}

/// Whether `m` is held, given which modifier groups are down.
pub open spec fn modifier_held(m: Modifier, alt: bool, ctrl: bool, sup: bool) -> bool {
    match m {
        Modifier::AnyState => true,
        Modifier::Alt => alt,
        Modifier::Ctrl => ctrl,
        Modifier::Super => sup,
    }
}

/// A press of a key playing `role`, with the given modifiers down, performs
/// shortcut `k`.
pub open spec fn completes(k: BlockableKey, role: KeyRole, alt: bool, ctrl: bool, sup: bool) -> bool {
    spec_trigger_role(k) == role && modifier_held(spec_required_modifier(k), alt, ctrl, sup)
}

/// A key press is blocked when it performs one of the blocked shortcuts.
pub open spec fn event_blocked(
    keys: Set<BlockableKey>,
    role: KeyRole,
    alt: bool,
    ctrl: bool,
    sup: bool,
) -> bool {
    exists|k: BlockableKey| keys.contains(k) && #[trigger] completes(k, role, alt, ctrl, sup)
}

/// The key that completes a shortcut.
pub fn trigger_role(k: BlockableKey) -> (r: KeyRole)
    ensures
        r == spec_trigger_role(k),
{
    match k {
        BlockableKey::Win => KeyRole::Meta,
        BlockableKey::AltTab => KeyRole::Tab,
        BlockableKey::AltF4 => KeyRole::F4,
        BlockableKey::AltEsc => KeyRole::Escape,
        BlockableKey::CtrlEsc => KeyRole::Escape,
        BlockableKey::WinTab => KeyRole::Tab,
        BlockableKey::WinD => KeyRole::LetterD,
        BlockableKey::WinE => KeyRole::LetterE,
        BlockableKey::WinR => KeyRole::LetterR,
        BlockableKey::WinL => KeyRole::LetterL,
    }
}

/// The modifier a shortcut needs.
pub fn required_modifier(k: BlockableKey) -> (r: Modifier)
    ensures
        r == spec_required_modifier(k),
{
    match k {
        BlockableKey::Win => Modifier::AnyState,
        BlockableKey::AltTab => Modifier::Alt,
        BlockableKey::AltF4 => Modifier::Alt,
        BlockableKey::AltEsc => Modifier::Alt,
        BlockableKey::CtrlEsc => Modifier::Ctrl,
        BlockableKey::WinTab => Modifier::Super,
        BlockableKey::WinD => Modifier::Super,
        BlockableKey::WinE => Modifier::Super,
        BlockableKey::WinR => Modifier::Super,
        BlockableKey::WinL => Modifier::Super,
    }
}

/// Whether a press of a key playing `role`, with Alt / Ctrl / Super held as
/// given, performs one of the shortcuts in `keys`.
pub fn blocks(keys: &KeySet, role: KeyRole, alt: bool, ctrl: bool, sup: bool) -> (r: bool)
    ensures
        r == event_blocked(keys@, role, alt, ctrl, sup),
{
    if keys.contains(BlockableKey::Win) && role == KeyRole::Meta {
        assert(completes(BlockableKey::Win, role, alt, ctrl, sup));
        return true;
    }
    if alt {
        if keys.contains(BlockableKey::AltTab) && role == KeyRole::Tab {
            assert(completes(BlockableKey::AltTab, role, alt, ctrl, sup));
            return true;
        }
        if keys.contains(BlockableKey::AltF4) && role == KeyRole::F4 {
            assert(completes(BlockableKey::AltF4, role, alt, ctrl, sup));
            return true;
        }
        if keys.contains(BlockableKey::AltEsc) && role == KeyRole::Escape {
            assert(completes(BlockableKey::AltEsc, role, alt, ctrl, sup));
            return true;
        }
    }
    if ctrl && keys.contains(BlockableKey::CtrlEsc) && role == KeyRole::Escape {
        assert(completes(BlockableKey::CtrlEsc, role, alt, ctrl, sup));
        return true;
    }
    if sup {
        if keys.contains(BlockableKey::WinTab) && role == KeyRole::Tab {
            assert(completes(BlockableKey::WinTab, role, alt, ctrl, sup));
            return true;
        }
        if keys.contains(BlockableKey::WinD) && role == KeyRole::LetterD {
            assert(completes(BlockableKey::WinD, role, alt, ctrl, sup));
            return true;
        }
        if keys.contains(BlockableKey::WinE) && role == KeyRole::LetterE {
            assert(completes(BlockableKey::WinE, role, alt, ctrl, sup));
            return true;
        }
        if keys.contains(BlockableKey::WinR) && role == KeyRole::LetterR {
            assert(completes(BlockableKey::WinR, role, alt, ctrl, sup));
            return true;
        }
        if keys.contains(BlockableKey::WinL) && role == KeyRole::LetterL {
            assert(completes(BlockableKey::WinL, role, alt, ctrl, sup));
            return true;
        }
    }
    assert forall|k: BlockableKey| keys@.contains(k) implies !#[trigger] completes(k, role, alt, ctrl, sup) by {
        match k {
            BlockableKey::Win => {},
            BlockableKey::AltTab => {},
            BlockableKey::AltF4 => {},
            BlockableKey::AltEsc => {},
            BlockableKey::CtrlEsc => {},
            BlockableKey::WinTab => {},
            BlockableKey::WinD => {},
            BlockableKey::WinE => {},
            BlockableKey::WinR => {},
            BlockableKey::WinL => {},
        }
    }
    false
}

/// Blocking more shortcuts never lets more key presses through.
pub proof fn lemma_blocking_is_monotone(
    keys1: Set<BlockableKey>,
    keys2: Set<BlockableKey>,
    role: KeyRole,
    alt: bool,
    ctrl: bool,
    sup: bool,
)
    requires
        keys1.subset_of(keys2),
    ensures
        event_blocked(keys1, role, alt, ctrl, sup) ==> event_blocked(keys2, role, alt, ctrl, sup),
{
    if event_blocked(keys1, role, alt, ctrl, sup) {
        let k = choose|k: BlockableKey| keys1.contains(k) && #[trigger] completes(k, role, alt, ctrl, sup);
        assert(keys2.contains(k));
    }
}

/// Performing a blocked shortcut (its key pressed with its modifier held) is
/// always blocked, whatever other modifiers are down.
pub proof fn lemma_blocked_shortcut_is_caught(
    keys: Set<BlockableKey>,
    k: BlockableKey,
    alt: bool,
    ctrl: bool,
    sup: bool,
)
    requires
        keys.contains(k),
        modifier_held(spec_required_modifier(k), alt, ctrl, sup),
    ensures
        event_blocked(keys, spec_trigger_role(k), alt, ctrl, sup),
{
    assert(completes(k, spec_trigger_role(k), alt, ctrl, sup));
}

/// With nothing blocked, no key press is blocked; a key that ends no shortcut
/// is never blocked.
pub proof fn lemma_nothing_blocked_without_shortcut(
    keys: Set<BlockableKey>,
    role: KeyRole,
    alt: bool,
    ctrl: bool,
    sup: bool,
)
    ensures
        keys == Set::<BlockableKey>::empty() ==> !event_blocked(keys, role, alt, ctrl, sup),
        role == KeyRole::Other ==> !event_blocked(keys, role, alt, ctrl, sup),
{
}

/// With the Windows key blocked, every press of a Windows / Super key is
/// blocked, whatever modifiers are down.
pub proof fn lemma_win_key_always_blocked(keys: Set<BlockableKey>, alt: bool, ctrl: bool, sup: bool)
    requires
        keys.contains(BlockableKey::Win),
    ensures
        event_blocked(keys, KeyRole::Meta, alt, ctrl, sup),
{
    assert(completes(BlockableKey::Win, KeyRole::Meta, alt, ctrl, sup));
}

/// A shortcut that needs Super never blocks a press while no Super key is
/// held: any press blocked with Super up completes a blocked shortcut that
/// needs no modifier, or needs Alt with Alt down, or Ctrl with Ctrl down.
pub proof fn lemma_super_shortcuts_need_super(
    keys: Set<BlockableKey>,
    role: KeyRole,
    alt: bool,
    ctrl: bool,
)
    ensures
        event_blocked(keys, role, alt, ctrl, false) ==> exists|k: BlockableKey|
            #![trigger keys.contains(k)]
            keys.contains(k) && spec_trigger_role(k) == role && (spec_required_modifier(k)
                == Modifier::AnyState || (spec_required_modifier(k) == Modifier::Alt && alt) || (
            spec_required_modifier(k) == Modifier::Ctrl && ctrl)),
{
    if event_blocked(keys, role, alt, ctrl, false) {
        let k = choose|k: BlockableKey| keys.contains(k) && #[trigger] completes(k, role, alt, ctrl, false);
        assert(keys.contains(k));
    }
}

/// Likewise Ctrl and Alt: a shortcut that needs Ctrl never blocks with Ctrl
/// up, and one that needs Alt never blocks with Alt up.
pub proof fn lemma_each_modifier_is_needed(keys: Set<BlockableKey>, role: KeyRole, alt: bool, ctrl: bool, sup: bool)
    ensures
        event_blocked(keys, role, alt, ctrl, sup) ==> exists|k: BlockableKey|
            #![trigger keys.contains(k)]
            keys.contains(k) && spec_trigger_role(k) == role && (spec_required_modifier(k)
                == Modifier::AnyState || (spec_required_modifier(k) == Modifier::Alt && alt) || (
            spec_required_modifier(k) == Modifier::Ctrl && ctrl) || (spec_required_modifier(k)
                == Modifier::Super && sup)),
{
    if event_blocked(keys, role, alt, ctrl, sup) {
        let k = choose|k: BlockableKey| keys.contains(k) && #[trigger] completes(k, role, alt, ctrl, sup);
        assert(keys.contains(k));
    }
}

/// Holding more modifiers never unblocks a press.
pub proof fn lemma_more_modifiers_never_unblock(
    keys: Set<BlockableKey>,
    role: KeyRole,
    alt: bool,
    ctrl: bool,
    sup: bool,
    a2: bool,
    c2: bool,
    s2: bool,
)
    ensures
        event_blocked(keys, role, alt, ctrl, sup) ==> event_blocked(
            keys,
            role,
            alt || a2,
            ctrl || c2,
            sup || s2,
        ),
{
    if event_blocked(keys, role, alt, ctrl, sup) {
        let k = choose|k: BlockableKey| keys.contains(k) && #[trigger] completes(k, role, alt, ctrl, sup);
        assert(completes(k, role, alt || a2, ctrl || c2, sup || s2));
    }
}

/// Each blocked shortcut is blocked whenever its own key is pressed with its
/// own modifier down, whatever else is held: a blocked Win key always; a
/// blocked Alt+X with Alt down; Ctrl+Esc with Ctrl down; Win+X with Super
/// down.
pub proof fn lemma_shortcut_blocked_with_its_modifier(
    keys: Set<BlockableKey>,
    k: BlockableKey,
    alt: bool,
    ctrl: bool,
    sup: bool,
)
    requires
        keys.contains(k),
    ensures
        spec_required_modifier(k) == Modifier::AnyState ==> event_blocked(keys, spec_trigger_role(k), alt, ctrl, sup),
        spec_required_modifier(k) == Modifier::Alt ==> event_blocked(keys, spec_trigger_role(k), true, ctrl, sup),
        spec_required_modifier(k) == Modifier::Ctrl ==> event_blocked(keys, spec_trigger_role(k), alt, true, sup),
        spec_required_modifier(k) == Modifier::Super ==> event_blocked(keys, spec_trigger_role(k), alt, ctrl, true),
{
    assert(completes(k, spec_trigger_role(k), alt, ctrl, sup) || spec_required_modifier(k) != Modifier::AnyState);
    assert(completes(k, spec_trigger_role(k), true, ctrl, sup) || spec_required_modifier(k) != Modifier::Alt);
    assert(completes(k, spec_trigger_role(k), alt, true, sup) || spec_required_modifier(k) != Modifier::Ctrl);
    assert(completes(k, spec_trigger_role(k), alt, ctrl, true) || spec_required_modifier(k) != Modifier::Super);
}

} // verus!

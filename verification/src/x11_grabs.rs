use vstd::prelude::*;
use crate::keys::BlockableKey;
use crate::shortcut::{
    required_modifier, spec_required_modifier, spec_trigger_role, trigger_role, KeyRole, Modifier,
};

verus! {

// X11 key symbols and modifier masks; they are the values of the `x11`
// crate's constants of the same names.
pub const XK_TAB: u32 = 0xFF09;
pub const XK_ESCAPE: u32 = 0xFF1B;
pub const XK_F4: u32 = 0xFFC1;
pub const XK_SUPER_L: u32 = 0xFFEB;
pub const XK_SUPER_R: u32 = 0xFFEC;
pub const XK_D: u32 = 0x64;
pub const XK_E: u32 = 0x65;
pub const XK_L: u32 = 0x6C;
pub const XK_R: u32 = 0x72;
/// Grab with whatever modifiers are down.
pub const ANY_MODIFIER: u32 = 0x8000;
/// Caps Lock.
pub const LOCK_MASK: u32 = 0x02;
pub const CONTROL_MASK: u32 = 0x04;
/// Alt.
pub const MOD1_MASK: u32 = 0x08;
/// Num Lock.
pub const MOD2_MASK: u32 = 0x10;
/// Super.
pub const MOD4_MASK: u32 = 0x40;

/// The key symbols of the keys that play `role`.
pub open spec fn spec_role_keysyms(role: KeyRole) -> Seq<u32> {
    match role {
        KeyRole::Meta => seq![XK_SUPER_L, XK_SUPER_R],
        KeyRole::Tab => seq![XK_TAB],
        KeyRole::F4 => seq![XK_F4],
        KeyRole::Escape => seq![XK_ESCAPE],
        KeyRole::LetterD => seq![XK_D],
        KeyRole::LetterE => seq![XK_E],
        KeyRole::LetterR => seq![XK_R],
        KeyRole::LetterL => seq![XK_L],
        KeyRole::Other => Seq::empty(),
    }
}

/// The X11 modifier mask of a shortcut modifier.
pub open spec fn spec_modifier_mask(m: Modifier) -> u32 {
    match m {
        Modifier::AnyState => ANY_MODIFIER,
        Modifier::Alt => MOD1_MASK,
        Modifier::Ctrl => CONTROL_MASK,
        Modifier::Super => MOD4_MASK,
    }
}

/// The (key symbol, modifier mask) pairs to grab for a shortcut.
pub open spec fn spec_key_combos(k: BlockableKey) -> Seq<(u32, u32)> {
    spec_role_keysyms(spec_trigger_role(k)).map_values(
        |sym: u32| (sym, spec_modifier_mask(spec_required_modifier(k))),
    )
}

/// The masks to grab for a base mask: every combination with Num Lock and
/// Caps Lock, or the single any-modifier mask.
pub open spec fn spec_grab_masks(base: u32) -> Seq<u32> {
    if base == ANY_MODIFIER {
        seq![ANY_MODIFIER]
    } else {
        seq![base | 0, base | MOD2_MASK, base | LOCK_MASK, base | (MOD2_MASK | LOCK_MASK)]
    }
}

/// The grabs for resolved (key code, base mask) pairs, in order; key code 0
/// (a key symbol missing from the keyboard) gets no grab.
pub open spec fn spec_grab_requests(resolved: Seq<(u32, u32)>) -> Seq<(u32, u32)>
    decreases resolved.len(),
{
    if resolved.len() == 0 {
        Seq::empty()
    } else {
        let last = resolved.last();
        let tail = if last.0 == 0 {
            Seq::<(u32, u32)>::empty()
        } else {
            spec_grab_masks(last.1).map_values(|m: u32| (last.0, m))
        };
        spec_grab_requests(resolved.drop_last()) + tail
    }
}

/// The key symbols of the keys that play `role`.
pub fn role_keysyms(role: KeyRole) -> (r: Vec<u32>)
    ensures
        r@ == spec_role_keysyms(role),
{
    let mut v: Vec<u32> = Vec::new();
    match role {
        KeyRole::Meta => {
            v.push(XK_SUPER_L);
            v.push(XK_SUPER_R);
        },
        KeyRole::Tab => v.push(XK_TAB),
        KeyRole::F4 => v.push(XK_F4),
        KeyRole::Escape => v.push(XK_ESCAPE),
        KeyRole::LetterD => v.push(XK_D),
        KeyRole::LetterE => v.push(XK_E),
        KeyRole::LetterR => v.push(XK_R),
        KeyRole::LetterL => v.push(XK_L),
        KeyRole::Other => {},
    }
    assert(v@ =~= spec_role_keysyms(role));
    v
}

/// The X11 modifier mask of a shortcut modifier.
pub fn modifier_mask(m: Modifier) -> (r: u32)
    ensures
        r == spec_modifier_mask(m),
{
    match m {
        Modifier::AnyState => ANY_MODIFIER,
        Modifier::Alt => MOD1_MASK,
        Modifier::Ctrl => CONTROL_MASK,
        Modifier::Super => MOD4_MASK,
    }
}

/// The (key symbol, modifier mask) pairs to grab on the root window for a
/// shortcut.
pub fn key_combos(k: BlockableKey) -> (r: Vec<(u32, u32)>)
    ensures
        r@ == spec_key_combos(k),
{
    let syms = role_keysyms(trigger_role(k));
    let mask = modifier_mask(required_modifier(k));
    let mut r: Vec<(u32, u32)> = Vec::new();
    let mut i: usize = 0;
    while i < syms.len()
        invariant
            i <= syms@.len(),
            syms@ == spec_role_keysyms(spec_trigger_role(k)),
            mask == spec_modifier_mask(spec_required_modifier(k)),
            r@ =~= syms@.take(i as int).map_values(|sym: u32| (sym, mask)),
        decreases syms@.len() - i,
    {
        r.push((syms[i], mask));
        i = i + 1;
    }
    assert(syms@.take(syms@.len() as int) =~= syms@);
    r
}

/// The masks to grab for a base mask, so that the grab holds whatever the
/// state of Num Lock and Caps Lock.
pub fn grab_masks(base: u32) -> (r: Vec<u32>)
    ensures
        r@ == spec_grab_masks(base),
{
    let mut r: Vec<u32> = Vec::new();
    if base == ANY_MODIFIER {
        r.push(ANY_MODIFIER);
    } else {
        r.push(base | 0);
        r.push(base | MOD2_MASK);
        r.push(base | LOCK_MASK);
        r.push(base | (MOD2_MASK | LOCK_MASK));
    }
    assert(r@ =~= spec_grab_masks(base));
    r
}

/// The (key code, mask) grabs to install for resolved (key code, base mask)
/// pairs; their number is the number of grabs attempted. The same list
/// serves to remove the grabs.
pub fn grab_requests(resolved: &Vec<(u32, u32)>) -> (r: Vec<(u32, u32)>)
    ensures
        r@ == spec_grab_requests(resolved@),
{
    let mut r: Vec<(u32, u32)> = Vec::new();
    let mut i: usize = 0;
    while i < resolved.len()
        invariant
            i <= resolved@.len(),
            r@ == spec_grab_requests(resolved@.take(i as int)),
        decreases resolved@.len() - i,
    {
        let (keycode, base) = resolved[i];
        let ghost before = r@;
        proof {
            let next = resolved@.take(i + 1);
            assert(next.drop_last() =~= resolved@.take(i as int));
            assert(next.last() == (keycode, base));
        }
        if keycode != 0 {
            let masks = grab_masks(base);
            let mut j: usize = 0;
            while j < masks.len()
                invariant
                    j <= masks@.len(),
                    masks@ == spec_grab_masks(base),
                    r@ =~= before + masks@.take(j as int).map_values(|m: u32| (keycode, m)),
                decreases masks@.len() - j,
            {
                r.push((keycode, masks[j]));
                j = j + 1;
            }
            assert(masks@.take(masks@.len() as int) =~= masks@);
        } else {
            assert(r@ =~= before + Seq::<(u32, u32)>::empty());
        }
        i = i + 1;
    }
    assert(resolved@.take(resolved@.len() as int) =~= resolved@);
    r
}

/// Every base-mask grab is installed once for each state of Num Lock and
/// Caps Lock, so the shortcut is caught whatever lock keys are on.
pub proof fn lemma_grabs_cover_lock_states(base: u32, num_lock: bool, caps_lock: bool)
    requires
        base != ANY_MODIFIER,
    ensures
        spec_grab_masks(base).contains(
            base | ((if num_lock {
                MOD2_MASK
            } else {
                0
            }) | (if caps_lock {
                LOCK_MASK
            } else {
                0
            })),
        ),
{
    let s = spec_grab_masks(base);
    assert((0u32 | 0u32) == 0u32) by (bit_vector);
    assert((MOD2_MASK | 0u32) == MOD2_MASK) by (bit_vector);
    assert((0u32 | LOCK_MASK) == LOCK_MASK) by (bit_vector);
    if !num_lock && !caps_lock {
        assert(s[0] == base | 0);
    } else if num_lock && !caps_lock {
        assert(s[1] == base | MOD2_MASK);
    } else if !num_lock && caps_lock {
        assert(s[2] == base | LOCK_MASK);
    } else {
        assert(s[3] == base | (MOD2_MASK | LOCK_MASK));
    }
}

/// Each grab of a shortcut is on a key that completes the shortcut, with the
/// mask of the modifier the shortcut needs: X11 grabs exactly the combinations
/// that the other backends block.
pub proof fn lemma_combos_match_shortcut(k: BlockableKey, i: int)
    requires
        0 <= i < spec_key_combos(k).len(),
    ensures
        spec_x11_role(spec_key_combos(k)[i].0) == spec_trigger_role(k),
        spec_key_combos(k)[i].1 == spec_modifier_mask(spec_required_modifier(k)),
{
}

/// The part an X11 key symbol plays in the shortcuts.
pub open spec fn spec_x11_role(sym: u32) -> KeyRole {
    if sym == XK_SUPER_L || sym == XK_SUPER_R {
        KeyRole::Meta
    } else if sym == XK_TAB {
        KeyRole::Tab
    } else if sym == XK_F4 {
        KeyRole::F4
    } else if sym == XK_ESCAPE {
        KeyRole::Escape
    } else if sym == XK_D {
        KeyRole::LetterD
    } else if sym == XK_E {
        KeyRole::LetterE
    } else if sym == XK_R {
        KeyRole::LetterR
    } else if sym == XK_L {
        KeyRole::LetterL
    } else {
        KeyRole::Other
    }
}

/// Every resolved pair with a key code other than 0 is grabbed with each of
/// its masks.
pub proof fn lemma_grab_requests_complete(resolved: Seq<(u32, u32)>, j: int, t: int)
    requires
        0 <= j < resolved.len(),
        resolved[j].0 != 0,
        0 <= t < spec_grab_masks(resolved[j].1).len(),
    ensures
        spec_grab_requests(resolved).contains((resolved[j].0, spec_grab_masks(resolved[j].1)[t])),
    decreases resolved.len(),
{
    let rest = resolved.drop_last();
    let last = resolved.last();
    let tail = if last.0 == 0 {
        Seq::<(u32, u32)>::empty()
    } else {
        spec_grab_masks(last.1).map_values(|m: u32| (last.0, m))
    };
    let whole = spec_grab_requests(resolved);
    assert(whole == spec_grab_requests(rest) + tail);
    if j == resolved.len() - 1 {
        assert(tail[t] == (resolved[j].0, spec_grab_masks(resolved[j].1)[t]));
        assert(whole[spec_grab_requests(rest).len() + t] == tail[t]);
    } else {
        assert(rest[j] == resolved[j]);
        lemma_grab_requests_complete(rest, j, t);
        let p = choose|p: int| 0 <= p < spec_grab_requests(rest).len() && spec_grab_requests(rest)[p] == (resolved[j].0, spec_grab_masks(resolved[j].1)[t]);
        assert(whole[p] == spec_grab_requests(rest)[p]);
    }
}

/// Every grab comes from a resolved pair with a key code other than 0 and is
/// one of that pair's masks.
pub proof fn lemma_grab_requests_sound(resolved: Seq<(u32, u32)>, p: int)
    requires
        0 <= p < spec_grab_requests(resolved).len(),
    ensures
        exists|j: int|
            0 <= j < resolved.len() && #[trigger] resolved[j].0 == spec_grab_requests(resolved)[p].0
                && resolved[j].0 != 0 && spec_grab_masks(resolved[j].1).contains(
                spec_grab_requests(resolved)[p].1,
            ),
    decreases resolved.len(),
{
    let rest = resolved.drop_last();
    let last = resolved.last();
    let n = resolved.len() - 1;
    let tail = if last.0 == 0 {
        Seq::<(u32, u32)>::empty()
    } else {
        spec_grab_masks(last.1).map_values(|m: u32| (last.0, m))
    };
    let whole = spec_grab_requests(resolved);
    assert(whole == spec_grab_requests(rest) + tail);
    if p < spec_grab_requests(rest).len() {
        lemma_grab_requests_sound(rest, p);
        let j = choose|j: int|
            0 <= j < rest.len() && #[trigger] rest[j].0 == spec_grab_requests(rest)[p].0
                && rest[j].0 != 0 && spec_grab_masks(rest[j].1).contains(spec_grab_requests(rest)[p].1);
        assert(resolved[j] == rest[j]);
        assert(whole[p] == spec_grab_requests(rest)[p]);
    } else {
        let t = p - spec_grab_requests(rest).len();
        assert(whole[p] == tail[t]);
        assert(resolved[n] == last);
        assert(spec_grab_masks(last.1)[t] == whole[p].1);
    }
}

/// The grab list has one entry per mask of each pair whose key code is not 0:
/// its length is the total number of those masks.
pub proof fn lemma_grab_requests_len(resolved: Seq<(u32, u32)>)
    ensures
        spec_grab_requests(resolved).len() == grab_count(resolved),
    decreases resolved.len(),
{
    if resolved.len() > 0 {
        lemma_grab_requests_len(resolved.drop_last());
    }
}

/// Number of grabs a list of resolved pairs needs: four per base mask (one
/// per Num Lock / Caps Lock state), one per any-modifier pair, none for key
/// code 0.
pub open spec fn grab_count(resolved: Seq<(u32, u32)>) -> nat
    decreases resolved.len(),
{
    if resolved.len() == 0 {
        0
    } else {
        let last = resolved.last();
        grab_count(resolved.drop_last()) + if last.0 == 0 {
            0nat
        } else if last.1 == ANY_MODIFIER {
            1nat
        } else {
            4nat
        }
    }
}

} // verus!

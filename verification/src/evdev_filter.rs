use vstd::prelude::*;
use vstd::string::*;
use std::collections::HashSet;
use crate::key_set::KeySet;
use crate::keys::BlockableKey;
use crate::shortcut::{blocks, completes, event_blocked, lemma_each_modifier_is_needed, KeyRole};

verus! {

broadcast use vstd::std_specs::hash::group_hash_axioms;

// Linux input event types and key codes (linux/input-event-codes.h); they are
// the values of evdev's `EventType` and `KeyCode` constants of the same names.
/// `EV_SYN`: a synchronisation marker between event batches.
pub const EV_SYN: u16 = 0;
/// `EV_KEY`: a key changed state.
pub const EV_KEY: u16 = 1;
pub const KEY_ESC: u16 = 1;
pub const KEY_TAB: u16 = 15;
pub const KEY_E: u16 = 18;
pub const KEY_R: u16 = 19;
pub const KEY_LEFTCTRL: u16 = 29;
pub const KEY_A: u16 = 30;
pub const KEY_D: u16 = 32;
pub const KEY_L: u16 = 38;
pub const KEY_Z: u16 = 44;
pub const KEY_LEFTALT: u16 = 56;
pub const KEY_F4: u16 = 62;
pub const KEY_RIGHTCTRL: u16 = 97;
pub const KEY_RIGHTALT: u16 = 100;
pub const KEY_LEFTMETA: u16 = 125;
pub const KEY_RIGHTMETA: u16 = 126;

/// Value of a key event: the key was released.
pub const KEY_RELEASE: i32 = 0;
/// Value of a key event: the key was pressed.
pub const KEY_PRESS: i32 = 1;
/// Value of a key event: the key is auto-repeating.
pub const KEY_REPEAT: i32 = 2;

/// One input event as read from an evdev device.
#[derive(Debug, Clone, Copy, PartialEq, Eq, Structural)]
pub struct InputRecord {
    pub event_type: u16,
    pub code: u16,
    pub value: i32,
}

/// The part an evdev key code plays in the shortcuts.
pub open spec fn spec_evdev_role(code: u16) -> KeyRole {
    if code == KEY_LEFTMETA || code == KEY_RIGHTMETA {
        KeyRole::Meta
    } else if code == KEY_TAB {
        KeyRole::Tab
    } else if code == KEY_F4 {
        KeyRole::F4
    } else if code == KEY_ESC {
        KeyRole::Escape
    } else if code == KEY_D {
        KeyRole::LetterD
    } else if code == KEY_E {
        KeyRole::LetterE
    } else if code == KEY_R {
        KeyRole::LetterR
    } else if code == KEY_L {
        KeyRole::LetterL
    } else {
        KeyRole::Other
    }
}

/// The part an evdev key code plays in the shortcuts.
pub fn evdev_role(code: u16) -> (r: KeyRole)
    ensures
        r == spec_evdev_role(code),
{
    if code == KEY_LEFTMETA || code == KEY_RIGHTMETA {
        KeyRole::Meta
    } else if code == KEY_TAB {
        KeyRole::Tab
    } else if code == KEY_F4 {
        KeyRole::F4
    } else if code == KEY_ESC {
        KeyRole::Escape
    } else if code == KEY_D {
        KeyRole::LetterD
    } else if code == KEY_E {
        KeyRole::LetterE
    } else if code == KEY_R {
        KeyRole::LetterR
    } else if code == KEY_L {
        KeyRole::LetterL
    } else {
        KeyRole::Other
    }
}

/// A device counts as a keyboard when it reports the keys A, Z, left Ctrl and
/// left Alt.
pub fn is_keyboard(supported_keys: &Vec<u16>) -> (r: bool)
    ensures
        r == (supported_keys@.contains(KEY_A) && supported_keys@.contains(KEY_Z)
            && supported_keys@.contains(KEY_LEFTCTRL) && supported_keys@.contains(KEY_LEFTALT)),
{
    contains_code(supported_keys, KEY_A) && contains_code(supported_keys, KEY_Z) && contains_code(
        supported_keys,
        KEY_LEFTCTRL,
    ) && contains_code(supported_keys, KEY_LEFTALT)
}

/// Whether `codes` holds `code`.
fn contains_code(codes: &Vec<u16>, code: u16) -> (r: bool)
    ensures
        r == codes@.contains(code),
{
    let mut i: usize = 0;
    while i < codes.len()
        invariant
            i <= codes@.len(),
            forall|j: int| 0 <= j < i ==> codes@[j] != code,
        decreases codes@.len() - i,
    {
        if codes[i] == code {
            assert(codes@[i as int] == code);
            return true;
        }
        i = i + 1;
    }
    false
}

/// The file name of an input device node (`eventN`) that may be a keyboard.
pub fn is_event_node(file_name: &str) -> (r: bool)
    ensures
        r == (file_name@.len() >= 5 && file_name@.subrange(0, 5) == seq!['e', 'v', 'e', 'n', 't']),
{
    let n = file_name.unicode_len();
    if n < 5 {
        return false;
    }
    let ok = file_name.get_char(0) == 'e' && file_name.get_char(1) == 'v' && file_name.get_char(2)
        == 'e' && file_name.get_char(3) == 'n' && file_name.get_char(4) == 't';
    assert(ok == (file_name@.subrange(0, 5) =~= seq!['e', 'v', 'e', 'n', 't']));
    ok
}

/// The abstract state of the key filter of one grabbed device.
pub struct FilterModel {
    /// The shortcuts to block.
    pub blocked: Set<BlockableKey>,
    /// Keys whose press or repeat was swallowed and whose release must be too.
    pub suppressed: Set<u16>,
    pub left_alt: bool,
    pub right_alt: bool,
    pub left_ctrl: bool,
    pub right_ctrl: bool,
    pub left_super: bool,
    pub right_super: bool,
}

/// The model after a modifier key changes state; other keys leave it as it is.
pub open spec fn with_modifier(m: FilterModel, code: u16, pressed: bool) -> FilterModel {
    if code == KEY_LEFTALT {
        FilterModel { left_alt: pressed, ..m }
    } else if code == KEY_RIGHTALT {
        FilterModel { right_alt: pressed, ..m }
    } else if code == KEY_LEFTCTRL {
        FilterModel { left_ctrl: pressed, ..m }
    } else if code == KEY_RIGHTCTRL {
        FilterModel { right_ctrl: pressed, ..m }
    } else if code == KEY_LEFTMETA {
        FilterModel { left_super: pressed, ..m }
    } else if code == KEY_RIGHTMETA {
        FilterModel { right_super: pressed, ..m }
    } else {
        m
    }
}

pub open spec fn model_alt(m: FilterModel) -> bool {
    m.left_alt || m.right_alt
}

pub open spec fn model_ctrl(m: FilterModel) -> bool {
    m.left_ctrl || m.right_ctrl
}

pub open spec fn model_super(m: FilterModel) -> bool {
    m.left_super || m.right_super
}

/// Whether a press of `code` in state `m` performs a blocked shortcut.
pub open spec fn model_blocks(m: FilterModel, code: u16) -> bool {
    event_blocked(m.blocked, spec_evdev_role(code), model_alt(m), model_ctrl(m), model_super(m))
}

pub open spec fn with_suppressed(m: FilterModel, s: Set<u16>) -> FilterModel {
    FilterModel { suppressed: s, ..m }
}

/// One event through the filter: the next state, and whether the event is
/// forwarded to the virtual keyboard. Synchronisation events are dropped (the
/// virtual device adds its own); a press or repeat that performs a blocked
/// shortcut is swallowed and its key remembered, so that its release is
/// swallowed too; everything else is forwarded.
pub open spec fn step(m: FilterModel, ev: InputRecord) -> (FilterModel, bool) {
    if ev.event_type == EV_SYN {
        (m, false)
    } else if ev.event_type == EV_KEY {
        let code = ev.code;
        let m1 = if ev.value == KEY_PRESS {
            with_modifier(m, code, true)
        } else if ev.value == KEY_RELEASE {
            with_modifier(m, code, false)
        } else {
            m
        };
        if ev.value == KEY_PRESS || ev.value == KEY_REPEAT {
            if model_blocks(m1, code) {
                (with_suppressed(m1, m1.suppressed.insert(code)), false)
            } else {
                (with_suppressed(m1, m1.suppressed.remove(code)), true)
            }
        } else if ev.value == KEY_RELEASE {
            if m1.suppressed.contains(code) {
                (with_suppressed(m1, m1.suppressed.remove(code)), false)
            } else {
                (m1, true)
            }
        } else {
            (m1, true)
        }
    } else {
        (m, true)
    }
}

/// A batch of events through the filter, in order: the final state and the
/// events forwarded.
pub open spec fn run(m: FilterModel, evs: Seq<InputRecord>) -> (FilterModel, Seq<InputRecord>)
    decreases evs.len(),
{
    if evs.len() == 0 {
        (m, Seq::empty())
    } else {
        let prev = run(m, evs.drop_last());
        let next = step(prev.0, evs.last());
        (next.0, if next.1 {
            prev.1.push(evs.last())
        } else {
            prev.1
        })
    }
}

/// The filter state of one grabbed keyboard.
pub struct KeyFilterState {
    blocked: KeySet,
    suppressed: HashSet<u16>,
    left_alt: bool,
    right_alt: bool,
    left_ctrl: bool,
    right_ctrl: bool,
    left_super: bool,
    right_super: bool,
}

impl View for KeyFilterState {
    type V = FilterModel;

    closed spec fn view(&self) -> FilterModel {
        FilterModel {
            blocked: self.blocked@,
            suppressed: self.suppressed@,
            left_alt: self.left_alt,
            right_alt: self.right_alt,
            left_ctrl: self.left_ctrl,
            right_ctrl: self.right_ctrl,
            left_super: self.left_super,
            right_super: self.right_super,
        }
    }
}

impl KeyFilterState {
    /// A filter that blocks `blocked`, with no modifier held and nothing
    /// swallowed yet.
    pub fn new(blocked: KeySet) -> (s: KeyFilterState)
        ensures
            s@ == (FilterModel {
                blocked: blocked@,
                suppressed: Set::empty(),
                left_alt: false,
                right_alt: false,
                left_ctrl: false,
                right_ctrl: false,
                left_super: false,
                right_super: false,
            }),
    {
        KeyFilterState {
            blocked,
            suppressed: HashSet::new(),
            left_alt: false,
            right_alt: false,
            left_ctrl: false,
            right_ctrl: false,
            left_super: false,
            right_super: false,
        }
    }

    /// Records a modifier key going down (`pressed`) or up.
    pub fn update_modifier(&mut self, key: u16, pressed: bool)
        ensures
            final(self)@ == with_modifier(old(self)@, key, pressed),
    {
        if key == KEY_LEFTALT {
            self.left_alt = pressed;
        } else if key == KEY_RIGHTALT {
            self.right_alt = pressed;
        } else if key == KEY_LEFTCTRL {
            self.left_ctrl = pressed;
        } else if key == KEY_RIGHTCTRL {
            self.right_ctrl = pressed;
        } else if key == KEY_LEFTMETA {
            self.left_super = pressed;
        } else if key == KEY_RIGHTMETA {
            self.right_super = pressed;
        }
    }

    /// Whether either Alt key is down.
    pub fn alt_held(&self) -> (r: bool)
        ensures
            r == model_alt(self@),
    {
        self.left_alt || self.right_alt
    }

    /// Whether either Ctrl key is down.
    pub fn ctrl_held(&self) -> (r: bool)
        ensures
            r == model_ctrl(self@),
    {
        self.left_ctrl || self.right_ctrl
    }

    /// Whether either Super key is down.
    pub fn super_held(&self) -> (r: bool)
        ensures
            r == model_super(self@),
    {
        self.left_super || self.right_super
    }

    /// Whether a press of `key` now performs a blocked shortcut.
    pub fn should_block(&self, key: u16) -> (r: bool)
        ensures
            r == model_blocks(self@, key),
    {
        blocks(&self.blocked, evdev_role(key), self.alt_held(), self.ctrl_held(), self.super_held())
    }

    /// Passes one event through the filter; returns whether it is forwarded.
    pub fn filter_event(&mut self, ev: InputRecord) -> (forward: bool)
        ensures
            (final(self)@, forward) == step(old(self)@, ev),
    {
        if ev.event_type == EV_SYN {
            return false;
        }
        if ev.event_type == EV_KEY {
            let key = ev.code;
            let action = ev.value;
            if action == KEY_PRESS {
                self.update_modifier(key, true);
            } else if action == KEY_RELEASE {
                self.update_modifier(key, false);
            }
            if action == KEY_PRESS || action == KEY_REPEAT {
                if self.should_block(key) {
                    self.suppressed.insert(key);
                    return false;
                }
                self.suppressed.remove(&key);
            } else if action == KEY_RELEASE {
                let ghost before = self.suppressed@;
                if self.suppressed.remove(&key) {
                    return false;
                }
                assert(self.suppressed@ =~= before);
            }
        }
        true
    }

    /// Passes a batch of events through the filter in order; returns those to
    /// forward, in order.
    pub fn filter_batch(&mut self, events: &Vec<InputRecord>) -> (forward: Vec<InputRecord>)
        ensures
            (final(self)@, forward@) == run(old(self)@, events@),
    {
        let mut forward: Vec<InputRecord> = Vec::new();
        let mut i: usize = 0;
        while i < events.len()
            invariant
                i <= events@.len(),
                (self@, forward@) == run(old(self)@, events@.take(i as int)),
            decreases events@.len() - i,
        {
            let ev = events[i];
            let ghost prefix = events@.take(i as int);
            let ghost next = events@.take(i + 1);
            proof {
                assert(next.drop_last() =~= prefix);
                assert(next.last() == ev);
            }
            if self.filter_event(ev) {
                forward.push(ev);
            }
            i = i + 1;
        }
        proof {
            assert(events@.take(events@.len() as int) =~= events@);
        }
        forward
    }
}

/// A key event with the given code and value.
pub open spec fn key_event(code: u16, value: i32) -> InputRecord {
    InputRecord { event_type: EV_KEY, code, value }
}

/// `ev` is a key event about `code`.
pub open spec fn touches(ev: InputRecord, code: u16) -> bool {
    ev.event_type == EV_KEY && ev.code == code
}

/// Events that are not key events about `code` leave the blocked shortcuts
/// alone and do not change whether `code` is being swallowed.
pub proof fn lemma_other_events_keep_suppression(m: FilterModel, evs: Seq<InputRecord>, code: u16)
    requires
        forall|i: int| 0 <= i < evs.len() ==> !touches(#[trigger] evs[i], code),
    ensures
        run(m, evs).0.suppressed.contains(code) == m.suppressed.contains(code),
        run(m, evs).0.blocked == m.blocked,
    decreases evs.len(),
{
    if evs.len() > 0 {
        let rest = evs.drop_last();
        assert forall|i: int| 0 <= i < rest.len() implies !touches(#[trigger] rest[i], code) by {
            assert(rest[i] == evs[i]);
        }
        lemma_other_events_keep_suppression(m, rest, code);
        assert(!touches(evs.last(), code));
    }
}

/// The filter never changes which shortcuts it blocks.
pub proof fn lemma_blocked_set_is_fixed(m: FilterModel, evs: Seq<InputRecord>)
    ensures
        run(m, evs).0.blocked == m.blocked,
    decreases evs.len(),
{
    if evs.len() > 0 {
        lemma_blocked_set_is_fixed(m, evs.drop_last());
    }
}

/// A swallowed key press has its release swallowed too, whatever events for
/// other keys come in between: the system never sees a release without its
/// press.
pub proof fn lemma_swallowed_press_swallows_release(m: FilterModel, code: u16, mid: Seq<InputRecord>)
    requires
        !step(m, key_event(code, KEY_PRESS)).1,
        forall|i: int| 0 <= i < mid.len() ==> !touches(#[trigger] mid[i], code),
    ensures
        !step(run(step(m, key_event(code, KEY_PRESS)).0, mid).0, key_event(code, KEY_RELEASE)).1,
{
    let m1 = step(m, key_event(code, KEY_PRESS)).0;
    assert(m1.suppressed.contains(code));
    lemma_other_events_keep_suppression(m1, mid, code);
}

/// A forwarded key press has its release forwarded too, whatever events for
/// other keys come in between: the system never misses the release of a key
/// it saw go down.
pub proof fn lemma_forwarded_press_forwards_release(m: FilterModel, code: u16, mid: Seq<InputRecord>)
    requires
        step(m, key_event(code, KEY_PRESS)).1,
        forall|i: int| 0 <= i < mid.len() ==> !touches(#[trigger] mid[i], code),
    ensures
        step(run(step(m, key_event(code, KEY_PRESS)).0, mid).0, key_event(code, KEY_RELEASE)).1,
{
    let m1 = step(m, key_event(code, KEY_PRESS)).0;
    assert(!m1.suppressed.contains(code));
    lemma_other_events_keep_suppression(m1, mid, code);
}

/// Synchronisation events are dropped and other non-key events are forwarded;
/// neither changes the filter's state.
pub proof fn lemma_non_key_events(m: FilterModel, ev: InputRecord)
    requires
        ev.event_type != EV_KEY,
    ensures
        step(m, ev).0 == m,
        step(m, ev).1 == (ev.event_type != EV_SYN),
{
}

/// The events that a filter blocking nothing forwards: all but the
/// synchronisation markers.
pub open spec fn not_sync(ev: InputRecord) -> bool {
    ev.event_type != EV_SYN
}

/// A filter that blocks nothing forwards every event but the synchronisation
/// markers, in order, and never starts swallowing a key.
pub proof fn lemma_pass_through_when_nothing_blocked(m: FilterModel, evs: Seq<InputRecord>)
    requires
        m.blocked == Set::<BlockableKey>::empty(),
        m.suppressed == Set::<u16>::empty(),
    ensures
        run(m, evs).1 == evs.filter(|ev: InputRecord| not_sync(ev)),
        run(m, evs).0.suppressed == Set::<u16>::empty(),
        run(m, evs).0.blocked == Set::<BlockableKey>::empty(),
    decreases evs.len(),
{
    reveal_with_fuel(Seq::filter, 1);
    if evs.len() > 0 {
        let rest = evs.drop_last();
        lemma_pass_through_when_nothing_blocked(m, rest);
        let prev = run(m, rest).0;
        let ev = evs.last();
        let code = ev.code;
        let m1 = if ev.value == KEY_PRESS {
            with_modifier(prev, code, true)
        } else if ev.value == KEY_RELEASE {
            with_modifier(prev, code, false)
        } else {
            prev
        };
        assert(m1.blocked == Set::<BlockableKey>::empty());
        assert(m1.suppressed == Set::<u16>::empty());
        assert(!model_blocks(m1, code));
        assert(m1.suppressed.remove(code) =~= Set::<u16>::empty());
    }
}

/// Each of the six modifier keys is tracked: after its press the matching
/// modifier is held, and after its release that side is up.
pub proof fn lemma_modifier_keys_are_tracked(m: FilterModel)
    ensures
        model_alt(step(m, key_event(KEY_LEFTALT, KEY_PRESS)).0),
        model_alt(step(m, key_event(KEY_RIGHTALT, KEY_PRESS)).0),
        model_ctrl(step(m, key_event(KEY_LEFTCTRL, KEY_PRESS)).0),
        model_ctrl(step(m, key_event(KEY_RIGHTCTRL, KEY_PRESS)).0),
        model_super(step(m, key_event(KEY_LEFTMETA, KEY_PRESS)).0),
        model_super(step(m, key_event(KEY_RIGHTMETA, KEY_PRESS)).0),
        !step(m, key_event(KEY_LEFTALT, KEY_RELEASE)).0.left_alt,
        !step(m, key_event(KEY_RIGHTALT, KEY_RELEASE)).0.right_alt,
        !step(m, key_event(KEY_LEFTCTRL, KEY_RELEASE)).0.left_ctrl,
        !step(m, key_event(KEY_RIGHTCTRL, KEY_RELEASE)).0.right_ctrl,
        !step(m, key_event(KEY_LEFTMETA, KEY_RELEASE)).0.left_super,
        !step(m, key_event(KEY_RIGHTMETA, KEY_RELEASE)).0.right_super,
        !model_alt(step(step(FilterModel { left_alt: false, right_alt: false, ..m }, key_event(KEY_LEFTALT, KEY_PRESS)).0, key_event(KEY_LEFTALT, KEY_RELEASE)).0),
        !model_ctrl(step(step(FilterModel { left_ctrl: false, right_ctrl: false, ..m }, key_event(KEY_LEFTCTRL, KEY_PRESS)).0, key_event(KEY_LEFTCTRL, KEY_RELEASE)).0),
        !model_super(step(step(FilterModel { left_super: false, right_super: false, ..m }, key_event(KEY_LEFTMETA, KEY_PRESS)).0, key_event(KEY_LEFTMETA, KEY_RELEASE)).0),
{
}

/// With Ctrl+Esc blocked, pressing either Ctrl key and then Esc swallows the
/// Esc press (the Ctrl press itself goes through); likewise Alt+Tab with
/// either Alt key and Win+D with either Super key.
pub proof fn lemma_modifier_then_key_is_swallowed(m: FilterModel)
    ensures
        m.blocked.contains(BlockableKey::CtrlEsc) ==> {
            &&& step(m, key_event(KEY_LEFTCTRL, KEY_PRESS)).1
            &&& !step(step(m, key_event(KEY_LEFTCTRL, KEY_PRESS)).0, key_event(KEY_ESC, KEY_PRESS)).1
            &&& !step(step(m, key_event(KEY_RIGHTCTRL, KEY_PRESS)).0, key_event(KEY_ESC, KEY_PRESS)).1
        },
        m.blocked.contains(BlockableKey::AltTab) ==> {
            &&& !step(step(m, key_event(KEY_LEFTALT, KEY_PRESS)).0, key_event(KEY_TAB, KEY_PRESS)).1
            &&& !step(step(m, key_event(KEY_RIGHTALT, KEY_PRESS)).0, key_event(KEY_TAB, KEY_PRESS)).1
        },
        m.blocked.contains(BlockableKey::WinD) ==> {
            &&& !step(step(m, key_event(KEY_LEFTMETA, KEY_PRESS)).0, key_event(KEY_D, KEY_PRESS)).1
            &&& !step(step(m, key_event(KEY_RIGHTMETA, KEY_PRESS)).0, key_event(KEY_D, KEY_PRESS)).1
        },
{
    let lc = step(m, key_event(KEY_LEFTCTRL, KEY_PRESS)).0;
    let rc = step(m, key_event(KEY_RIGHTCTRL, KEY_PRESS)).0;
    let la = step(m, key_event(KEY_LEFTALT, KEY_PRESS)).0;
    let ra = step(m, key_event(KEY_RIGHTALT, KEY_PRESS)).0;
    let ls = step(m, key_event(KEY_LEFTMETA, KEY_PRESS)).0;
    let rs = step(m, key_event(KEY_RIGHTMETA, KEY_PRESS)).0;
    if m.blocked.contains(BlockableKey::CtrlEsc) {
        assert(!model_blocks(with_modifier(m, KEY_LEFTCTRL, true), KEY_LEFTCTRL)) by {
            lemma_each_modifier_is_needed(m.blocked, KeyRole::Other, model_alt(with_modifier(m, KEY_LEFTCTRL, true)), true, model_super(with_modifier(m, KEY_LEFTCTRL, true)));
        }
        assert(completes(BlockableKey::CtrlEsc, KeyRole::Escape, model_alt(lc), model_ctrl(lc), model_super(lc)));
        assert(completes(BlockableKey::CtrlEsc, KeyRole::Escape, model_alt(rc), model_ctrl(rc), model_super(rc)));
    }
    if m.blocked.contains(BlockableKey::AltTab) {
        assert(completes(BlockableKey::AltTab, KeyRole::Tab, model_alt(la), model_ctrl(la), model_super(la)));
        assert(completes(BlockableKey::AltTab, KeyRole::Tab, model_alt(ra), model_ctrl(ra), model_super(ra)));
    }
    if m.blocked.contains(BlockableKey::WinD) {
        assert(completes(BlockableKey::WinD, KeyRole::LetterD, model_alt(ls), model_ctrl(ls), model_super(ls)));
        assert(completes(BlockableKey::WinD, KeyRole::LetterD, model_alt(rs), model_ctrl(rs), model_super(rs)));
    }
}

} // verus!

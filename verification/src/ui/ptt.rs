//! Push-to-talk: the decisions the low-level keyboard hook makes for each
//! key event.

use vstd::prelude::*;

verus! {

/// Virtual-key codes of the modifier keys (generic, left and right).
pub const VK_SHIFT: u32 = 0x10;
pub const VK_CONTROL: u32 = 0x11;
pub const VK_MENU: u32 = 0x12;
pub const VK_LSHIFT: u32 = 0xA0;
pub const VK_RSHIFT: u32 = 0xA1;
pub const VK_LCONTROL: u32 = 0xA2;
pub const VK_RCONTROL: u32 = 0xA3;
pub const VK_LMENU: u32 = 0xA4;
pub const VK_RMENU: u32 = 0xA5;

/// Modifier bits of push-to-talk settings and releases.
pub const PTT_ALT: u32 = 1;
pub const PTT_CTRL: u32 = 2;
pub const PTT_SHIFT: u32 = 4;

/// The hook's state: the push-to-talk key, whether the hook acts, the
/// modifiers it has seen held, whether recording was started by the key,
/// and the modifier key-ups still to be sent.
#[derive(Debug, Clone, Copy, PartialEq, Eq, Structural)]
pub struct PttState {
    pub vkey: u32,
    pub mods: u32,
    pub enabled: bool,
    pub ctrl_held: bool,
    pub alt_held: bool,
    pub shift_held: bool,
    pub armed: bool,
    pub pending_release: u32,
}

/// One event seen by the keyboard hook.
#[derive(Debug, Clone, Copy, PartialEq, Eq, Structural)]
pub struct KeyEvent {
    pub vk: u32,
    pub is_down: bool,
    /// The event was synthesised by this program (modifier release).
    pub injected: bool,
}

/// What the hook does with one event.
#[derive(Debug, Clone, Copy, PartialEq, Eq, Structural)]
pub struct PttDecision {
    /// Keep the event from the focused window.
    pub swallow: bool,
    /// Tell the recorder the key went down (`Some(true)`) or up (`Some(false)`).
    pub signal: Option<bool>,
}

/// A Control key, generic or left or right.
pub open spec fn is_ctrl_key(vk: u32) -> bool {
    vk == VK_LCONTROL || vk == VK_RCONTROL || vk == VK_CONTROL
}

/// An Alt key, generic or left or right.
pub open spec fn is_alt_key(vk: u32) -> bool {
    vk == VK_LMENU || vk == VK_RMENU || vk == VK_MENU
}

/// A Shift key, generic or left or right.
pub open spec fn is_shift_key(vk: u32) -> bool {
    vk == VK_LSHIFT || vk == VK_RSHIFT || vk == VK_SHIFT
}

/// The bit mask of the held modifiers.
pub open spec fn held_mask(alt: bool, ctrl: bool, shift: bool) -> u32 {
    ((if alt {
        PTT_ALT
    } else {
        0
    }) + (if ctrl {
        PTT_CTRL
    } else {
        0
    }) + (if shift {
        PTT_SHIFT
    } else {
        0
    })) as u32
}

/// The hook's step.
///
/// Injected events pass untouched. Modifier keys update what is held.
/// When the hook is enabled and the event is the push-to-talk key: a press
/// with exactly the configured modifiers held is swallowed and, the first
/// time, arms the key, signals "down" and queues key-ups for the held
/// modifiers; a release while armed disarms, signals "up" and is swallowed.
/// Everything else passes.
pub open spec fn ptt_step(st: PttState, ev: KeyEvent) -> (PttState, PttDecision) {
    let pass = PttDecision { swallow: false, signal: None };
    if ev.injected {
        (st, pass)
    } else {
        let s1 = if is_ctrl_key(ev.vk) {
            PttState { ctrl_held: ev.is_down, ..st }
        } else if is_alt_key(ev.vk) {
            PttState { alt_held: ev.is_down, ..st }
        } else if is_shift_key(ev.vk) {
            PttState { shift_held: ev.is_down, ..st }
        } else {
            st
        };
        if s1.enabled && s1.vkey != 0 && ev.vk == s1.vkey {
            if ev.is_down {
                let ok = ((s1.mods & PTT_CTRL) != 0) == s1.ctrl_held && ((s1.mods & PTT_ALT) != 0)
                    == s1.alt_held && ((s1.mods & PTT_SHIFT) != 0) == s1.shift_held;
                if ok {
                    if !s1.armed {
                        (
                            PttState {
                                armed: true,
                                pending_release: held_mask(s1.alt_held, s1.ctrl_held, s1.shift_held),
                                ..s1
                            },
                            PttDecision { swallow: true, signal: Some(true) },
                        )
                    } else {
                        (s1, PttDecision { swallow: true, signal: None })
                    }
                } else {
                    (s1, pass)
                }
            } else if s1.armed {
                (PttState { armed: false, ..s1 }, PttDecision { swallow: true, signal: Some(false) })
            } else {
                (s1, pass)
            }
        } else {
            (s1, pass)
        }
    }
}

/// The state of a hook for the key `vkey` with modifier bits `mods`.
pub fn ptt_initial(vkey: u32, mods: u32, enabled: bool) -> (r: PttState)
    ensures
        r == (PttState {
            vkey,
            mods,
            enabled,
            ctrl_held: false,
            alt_held: false,
            shift_held: false,
            armed: false,
            pending_release: 0,
        }),
{
    PttState {
        vkey,
        mods,
        enabled,
        ctrl_held: false,
        alt_held: false,
        shift_held: false,
        armed: false,
        pending_release: 0,
    }
}

/// Executable [`ptt_step`]: the hook's handling of one key event.
pub fn ptt_handle_key(st: &mut PttState, ev: KeyEvent) -> (d: PttDecision)
    ensures
        (*final(st), d) == ptt_step(*old(st), ev),
{
    let pass = PttDecision { swallow: false, signal: None };
    if ev.injected {
        return pass;
    }
    let vk = ev.vk;
    if vk == VK_LCONTROL || vk == VK_RCONTROL || vk == VK_CONTROL {
        st.ctrl_held = ev.is_down;
    } else if vk == VK_LMENU || vk == VK_RMENU || vk == VK_MENU {
        st.alt_held = ev.is_down;
    } else if vk == VK_LSHIFT || vk == VK_RSHIFT || vk == VK_SHIFT {
        st.shift_held = ev.is_down;
    }
    if st.enabled && st.vkey != 0 && vk == st.vkey {
        if ev.is_down {
            let ok = ((st.mods & PTT_CTRL) != 0) == st.ctrl_held && ((st.mods & PTT_ALT) != 0)
                == st.alt_held && ((st.mods & PTT_SHIFT) != 0) == st.shift_held;
            if ok {
                if !st.armed {
                    st.armed = true;
                    st.pending_release = (if st.alt_held {
                        PTT_ALT
                    } else {
                        0
                    }) + (if st.ctrl_held {
                        PTT_CTRL
                    } else {
                        0
                    }) + (if st.shift_held {
                        PTT_SHIFT
                    } else {
                        0
                    });
                    return PttDecision { swallow: true, signal: Some(true) };
                }
                return PttDecision { swallow: true, signal: None };
            }
            pass
        } else if st.armed {
            st.armed = false;
            PttDecision { swallow: true, signal: Some(false) }
        } else {
            pass
        }
    } else {
        pass
    }
}

/// Takes the queued modifier key-ups (bit 0 Alt, bit 1 Ctrl, bit 2 Shift),
/// leaving none queued.
pub fn ptt_take_pending_release(st: &mut PttState) -> (mask: u32)
    ensures
        mask == old(st).pending_release,
        *final(st) == (PttState { pending_release: 0, ..*old(st) }),
{
    let m = st.pending_release;
    st.pending_release = 0;
    m
}

/// Installs a new push-to-talk key; a pending press is forgotten.
pub fn ptt_set_hotkey(st: &mut PttState, vkey: u32, mods: u32)
    ensures
        *final(st) == (PttState { vkey, mods, armed: false, ..*old(st) }),
{
    st.vkey = vkey;
    st.mods = mods;
    st.armed = false;
}

/// Switches the hook on or off.
pub fn ptt_set_enabled(st: &mut PttState, enabled: bool)
    ensures
        *final(st) == (PttState { enabled, ..*old(st) }),
{
    st.enabled = enabled;
}

/// The key-ups that release the modifiers in `mask` (bit 0 Alt, bit 1
/// Ctrl, bit 2 Shift), in the order Control, Alt, Shift.
pub open spec fn modifier_key_ups_of(mask: u32) -> Seq<u32> {
    (if mask & PTT_CTRL != 0 {
        seq![VK_CONTROL]
    } else {
        seq![]
    }) + (if mask & PTT_ALT != 0 {
        seq![VK_MENU]
    } else {
        seq![]
    }) + (if mask & PTT_SHIFT != 0 {
        seq![VK_SHIFT]
    } else {
        seq![]
    })
}

/// Executable [`modifier_key_ups_of`]: the virtual keys whose key-up is
/// sent after a push-to-talk press swallowed its modifiers.
pub fn modifier_key_ups(mask: u32) -> (r: Vec<u32>)
    ensures
        r@ == modifier_key_ups_of(mask),
{
    let mut out: Vec<u32> = Vec::new();
    if mask & PTT_CTRL != 0 {
        out.push(VK_CONTROL);
    }
    if mask & PTT_ALT != 0 {
        out.push(VK_MENU);
    }
    if mask & PTT_SHIFT != 0 {
        out.push(VK_SHIFT);
    }
    assert(out@ =~= modifier_key_ups_of(mask));
    out
}

/// The state after a sequence of events.
pub open spec fn ptt_run(st: PttState, evs: Seq<KeyEvent>) -> PttState
    decreases evs.len(),
{
    if evs.len() == 0 {
        st
    } else {
        ptt_step(ptt_run(st, evs.drop_last()), evs.last()).0
    }
}

/// The recorder signals sent for a sequence of events.
pub open spec fn ptt_signals(st: PttState, evs: Seq<KeyEvent>) -> Seq<bool>
    decreases evs.len(),
{
    if evs.len() == 0 {
        seq![]
    } else {
        let prev = ptt_signals(st, evs.drop_last());
        match ptt_step(ptt_run(st, evs.drop_last()), evs.last()).1.signal {
            Some(b) => prev.push(b),
            None => prev,
        }
    }
}

/// Signals alternate down, up, down, … starting with down.
pub open spec fn alternating(sig: Seq<bool>) -> bool {
    forall|i: int| 0 <= i < sig.len() ==> #[trigger] sig[i] == (i % 2 == 0)
}

/// From a disarmed hook, the recorder is told "down" and "up" strictly in
/// turn, beginning with "down", and the hook is armed exactly when the last
/// signal was "down": a held key never starts recording twice, and a
/// release is reported only for a press that was reported.
pub proof fn law_ptt_signals_alternate(st: PttState, evs: Seq<KeyEvent>)
    requires
        !st.armed,
    ensures
        alternating(ptt_signals(st, evs)),
        ptt_run(st, evs).armed == (ptt_signals(st, evs).len() % 2 == 1),
    decreases evs.len(),
{
    if evs.len() > 0 {
        law_ptt_signals_alternate(st, evs.drop_last());
        let prev = ptt_signals(st, evs.drop_last());
        let s = ptt_run(st, evs.drop_last());
        let sig = ptt_signals(st, evs);
        match ptt_step(s, evs.last()).1.signal {
            Some(b) => {
                assert(sig == prev.push(b));
                assert forall|i: int| 0 <= i < sig.len() implies #[trigger] sig[i] == (i % 2 == 0) by {
                    if i < prev.len() {
                        assert(sig[i] == prev[i]);
                    }
                }
            },
            None => {},
        }
    }
}

/// A press reported as "down" queues exactly the modifiers held at that
/// moment for release.
pub proof fn law_ptt_release_matches_held(st: PttState, ev: KeyEvent)
    requires
        ptt_step(st, ev).1.signal == Some(true),
    ensures
        ptt_step(st, ev).0.pending_release == held_mask(
            ptt_step(st, ev).0.alt_held,
            ptt_step(st, ev).0.ctrl_held,
            ptt_step(st, ev).0.shift_held,
        ),
{
}

/// Every Control, Alt or Shift key event, left, right or generic, records
/// whether that modifier is held and leaves the other two as they were; any
/// other key leaves all three as they were.
pub proof fn law_modifier_keys_tracked(st: PttState, ev: KeyEvent)
    requires
        !ev.injected,
    ensures
        ev.vk == VK_LCONTROL || ev.vk == VK_RCONTROL || ev.vk == VK_CONTROL ==> {
            &&& ptt_step(st, ev).0.ctrl_held == ev.is_down
            &&& ptt_step(st, ev).0.alt_held == st.alt_held
            &&& ptt_step(st, ev).0.shift_held == st.shift_held
        },
        ev.vk == VK_LMENU || ev.vk == VK_RMENU || ev.vk == VK_MENU ==> {
            &&& ptt_step(st, ev).0.alt_held == ev.is_down
            &&& ptt_step(st, ev).0.ctrl_held == st.ctrl_held
            &&& ptt_step(st, ev).0.shift_held == st.shift_held
        },
        ev.vk == VK_LSHIFT || ev.vk == VK_RSHIFT || ev.vk == VK_SHIFT ==> {
            &&& ptt_step(st, ev).0.shift_held == ev.is_down
            &&& ptt_step(st, ev).0.ctrl_held == st.ctrl_held
            &&& ptt_step(st, ev).0.alt_held == st.alt_held
        },
        !(ev.vk == VK_LCONTROL || ev.vk == VK_RCONTROL || ev.vk == VK_CONTROL || ev.vk == VK_LMENU
            || ev.vk == VK_RMENU || ev.vk == VK_MENU || ev.vk == VK_LSHIFT || ev.vk == VK_RSHIFT
            || ev.vk == VK_SHIFT) ==> {
            &&& ptt_step(st, ev).0.ctrl_held == st.ctrl_held
            &&& ptt_step(st, ev).0.alt_held == st.alt_held
            &&& ptt_step(st, ev).0.shift_held == st.shift_held
        },
{
}

/// The left, right and generic key of one modifier are interchangeable:
/// unless one of them is the push-to-talk key itself, the same event on
/// either gives the same state and the same decision.
pub proof fn law_modifier_sides_interchangeable(st: PttState, down: bool, a: u32, b: u32)
    requires
        (a == VK_LCONTROL || a == VK_RCONTROL || a == VK_CONTROL) && (b == VK_LCONTROL || b
            == VK_RCONTROL || b == VK_CONTROL) || (a == VK_LMENU || a == VK_RMENU || a == VK_MENU)
            && (b == VK_LMENU || b == VK_RMENU || b == VK_MENU) || (a == VK_LSHIFT || a
            == VK_RSHIFT || a == VK_SHIFT) && (b == VK_LSHIFT || b == VK_RSHIFT || b == VK_SHIFT),
        st.vkey != a,
        st.vkey != b,
    ensures
        ptt_step(st, KeyEvent { vk: a, is_down: down, injected: false }) == ptt_step(
            st,
            KeyEvent { vk: b, is_down: down, injected: false },
        ),
{
}

} // verus!

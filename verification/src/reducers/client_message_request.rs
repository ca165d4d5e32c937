//! A client sends a message to the root window.
use vstd::prelude::*;
use crate::action::Action;
use crate::config::Config;
use crate::geometry::Window;
use crate::models::client_map::index_of;
use crate::reducers::key_press::{monocle_toggled, toggle_window};
use crate::reducers::mon_shown_updated;
use crate::state::State;
use crate::wm::{mon_of_window, same_but_monitors, set_current_ws, sound, switched_ws, window_monitor};

verus! {

/// The atoms of the EWMH properties that the messages speak of.
#[derive(Clone, Copy, Debug)]
pub struct NetAtoms {
    pub wm_state: u64,
    pub wm_state_hidden: u64,
    pub wm_state_fullscreen: u64,
    pub current_desktop: u64,
}

/// A client message; the fields hold what the X server reports, the
/// `_NET_WM_STATE` atoms that the window has among them.
#[derive(Clone, Debug)]
pub struct ClientMessageRequest {
    pub win: Window,
    pub message_type: u64,
    /// The first longs of the message.
    pub data: Vec<i64>,
    pub atoms: NetAtoms,
    /// The window's `_NET_WM_STATE` atoms.
    pub states: Vec<u64>,
}

/// The sequence increases strictly.
pub open spec fn strictly_sorted(s: Seq<u64>) -> bool {
    forall|i: int, j: int| 0 <= i < j < s.len() ==> s[i] < s[j]
}

/// Files `x` in the strictly increasing `v`, unless it is there.
fn insert_sorted(v: &mut Vec<u64>, x: u64)
    requires
        strictly_sorted(old(v)@),
    ensures
        strictly_sorted(final(v)@),
        final(v)@.to_set() == old(v)@.to_set().insert(x),
{
    let mut i: usize = 0;
    while i < v.len() && v[i] < x
        invariant
            i <= v@.len(),
            forall|j: int| 0 <= j < i ==> v@[j] < x,
        decreases v@.len() - i,
    {
        i = i + 1;
    }
    if i < v.len() && v[i] == x {
        proof {
            assert(v@.to_set().insert(x) =~= v@.to_set());
        }
        return;
    }
    let ghost before = v@;
    v.insert(i, x);
    proof {
        assert(v@ == before.take(i as int).push(x) + before.skip(i as int));
        assert forall|a: int, b: int| 0 <= a < b < v@.len() implies v@[a] < v@[b] by {
            if a < i && b < i {
                assert(v@[a] == before[a] && v@[b] == before[b]);
            } else if a < i && b == i {
                assert(v@[a] == before[a]);
            } else if a < i {
                assert(v@[a] == before[a] && v@[b] == before[b - 1]);
            } else if a == i {
                assert(v@[b] == before[b - 1]);
                assert(before[i as int] > x);
                if b - 1 > i {
                    assert(before[i as int] < before[b - 1]);
                }
            } else {
                assert(v@[a] == before[a - 1] && v@[b] == before[b - 1]);
            }
        }
        assert forall|y: u64| v@.to_set().contains(y) <==> before.to_set().insert(x).contains(y) by {
            if v@.to_set().contains(y) {
                let k = choose|k: int| 0 <= k < v@.len() && v@[k] == y;
                if k < i {
                    assert(before[k] == y);
                } else if k > i {
                    assert(before[k - 1] == y);
                }
            }
            if before.to_set().contains(y) {
                let k = choose|k: int| 0 <= k < before.len() && before[k] == y;
                if k < i {
                    assert(v@[k] == y);
                } else {
                    assert(v@[k + 1] == y);
                }
            }
            if y == x {
                assert(v@[i as int] == x);
            }
        }
        assert(v@.to_set() =~= before.to_set().insert(x));
    }
}

/// The atoms of `states`, sorted, each once, with `fs` added when `add`
/// and taken out else.
fn updated_states(states: &Vec<u64>, fs: u64, add: bool) -> (r: Vec<u64>)
    ensures
        strictly_sorted(r@),
        r@.to_set() == if add {
            states@.to_set().insert(fs)
        } else {
            states@.to_set().remove(fs)
        },
{
    let mut r: Vec<u64> = Vec::new();
    let mut i: usize = 0;
    while i < states.len()
        invariant
            i <= states@.len(),
            strictly_sorted(r@),
            r@.to_set() == states@.take(i as int).to_set().remove(fs),
        decreases states@.len() - i,
    {
        let x = states[i];
        proof {
            assert(states@.take(i as int + 1) == states@.take(i as int).push(x));
            states@.take(i as int).lemma_push_to_set_commute(x);
        }
        if x != fs {
            insert_sorted(&mut r, x);
            proof {
                assert(r@.to_set() =~= states@.take(i as int + 1).to_set().remove(fs));
            }
        } else {
            proof {
                assert(r@.to_set() =~= states@.take(i as int + 1).to_set().remove(fs));
            }
        }
        i = i + 1;
    }
    proof {
        assert(states@.take(states@.len() as int) =~= states@);
    }
    if add {
        insert_sorted(&mut r, fs);
        proof {
            assert(r@.to_set() =~= states@.to_set().insert(fs));
        }
    }
    r
}

/// The message asks for the window to be hidden.
pub open spec fn asks_hidden(ev: ClientMessageRequest) -> bool {
    let h = ev.atoms.wm_state_hidden as i64;
    ev.message_type == ev.atoms.wm_state && (ev.data@[0] == h || ev.data@[1] == h || ev.data@[2] == h)
}

/// The message speaks of full screen.
pub open spec fn asks_fullscreen(ev: ClientMessageRequest) -> bool {
    let f = ev.atoms.wm_state_fullscreen as i64;
    ev.message_type == ev.atoms.wm_state && (ev.data@[1] == f || ev.data@[2] == f)
}

/// Whether the window is to be in full screen: the first long is 1 to set
/// it, 2 to toggle it.
pub open spec fn wants_fullscreen(ev: ClientMessageRequest) -> bool {
    if ev.data@[0] == 2 {
        !ev.states@.contains(ev.atoms.wm_state_fullscreen)
    } else {
        ev.data@[0] == 1
    }
}

/// A window asking to be hidden leaves the workspace shown on the monitor
/// that alone holds it (else the current one), and the layout is to be
/// applied again.
pub open spec fn hidden_step(old: State, s1: State, ev: ClientMessageRequest, acts: Seq<Action>, a1: Seq<Action>) -> bool {
    if asks_hidden(ev) {
        let id = window_monitor(old, ev.win);
        let c = old.mons()[id].cur();
        &&& a1 == acts.push(Action::UpdateLayout)
        &&& if c.has_window(ev.win) {
            &&& same_but_monitors(old, s1)
            &&& s1.focus_w == old.focus_w
            &&& s1.current_monitor == old.current_monitor
            &&& mon_shown_updated(old, s1, id, c.entries().remove(index_of(c.entries(), ev.win)), c.focus_w)
        } else {
            s1 == old
        }
    } else {
        s1 == old && a1 == acts
    }
}

/// A request for another desktop shows that workspace.
pub open spec fn desktop_step(s1: State, s2: State, cfg: Config, ev: ClientMessageRequest) -> bool {
    if ev.message_type == ev.atoms.current_desktop {
        exists|r: Option<()>| #[trigger] switched_ws(s1, s2, cfg, ev.data@[0] as u32, r)
    } else {
        s2 == s1
    }
}

/// A request about full screen sets the window's states, sorted and each
/// once, and toggles its monocle.
pub open spec fn fullscreen_step(s2: State, new: State, cfg: Config, ev: ClientMessageRequest, a1: Seq<Action>, new_acts: Seq<Action>) -> bool {
    if asks_fullscreen(ev) {
        &&& exists|v: Vec<u64>|
            #![trigger v@.to_set()]
            strictly_sorted(v@) && v@.to_set() == (if wants_fullscreen(ev) {
                ev.states@.to_set().insert(ev.atoms.wm_state_fullscreen)
            } else {
                ev.states@.to_set().remove(ev.atoms.wm_state_fullscreen)
            }) && new_acts == a1.push(Action::SetWindowStates(ev.win, v))
        &&& exists|r: Option<()>| #[trigger] monocle_toggled(s2, new, cfg, ev.win, r)
    } else {
        new == s2 && new_acts == a1
    }
}

/// What a client message does, step by step; see `hidden_step`,
/// `desktop_step` and `fullscreen_step`.
pub open spec fn messaged(old: State, new: State, cfg: Config, ev: ClientMessageRequest, acts: Seq<Action>, new_acts: Seq<Action>) -> bool {
    exists|s1: State, s2: State, a1: Seq<Action>|
        #![trigger hidden_step(old, s1, ev, acts, a1), desktop_step(s1, s2, cfg, ev)]
        hidden_step(old, s1, ev, acts, a1) && sound(s1, cfg) && desktop_step(s1, s2, cfg, ev) && sound(s2, cfg)
            && fullscreen_step(s2, new, cfg, ev, a1, new_acts)
}

/// Answers a client message; see `messaged`.
pub fn client_message_request(state: &mut State, cfg: &Config, ev: &ClientMessageRequest, actions: &mut Vec<Action>)
    requires
        sound(*old(state), *cfg),
        ev.data@.len() >= 3,
    ensures
        sound(*final(state), *cfg),
        messaged(*old(state), *final(state), *cfg, *ev, old(actions)@, final(actions)@),
{
    broadcast use vstd::std_specs::hash::group_hash_axioms;

    let d0 = ev.data[0];
    let d1 = ev.data[1];
    let d2 = ev.data[2];
    let hidden = ev.atoms.wm_state_hidden as i64;
    if ev.message_type == ev.atoms.wm_state && (d0 == hidden || d1 == hidden || d2 == hidden) {
        let id = mon_of_window(state, ev.win);
        let ws = state.monitors.get(&id).unwrap().get_current_ws().unwrap();
        if ws.contains_window(ev.win) {
            let focus = ws.focus_w;
            crate::reducers::drop_shown(state, cfg, id, ev.win, focus);
        }
        actions.push(Action::UpdateLayout);
    }
    let ghost s1 = *state;
    let ghost a1 = actions@;
    if ev.message_type == ev.atoms.current_desktop {
        let r = set_current_ws(state, cfg, d0 as u32);
        proof {
            assert(switched_ws(s1, *state, *cfg, ev.data@[0] as u32, r));
        }
    }
    let ghost s2 = *state;
    let fs = ev.atoms.wm_state_fullscreen;
    if ev.message_type == ev.atoms.wm_state && (d1 == fs as i64 || d2 == fs as i64) {
        let toggle = d0 == 2;
        let set = d0 == 1;
        let fullscreen = if toggle {
            !vec_contains_u64(&ev.states, fs)
        } else {
            set
        };
        let states = updated_states(&ev.states, fs, fullscreen);
        let ghost v = states;
        actions.push(Action::SetWindowStates(ev.win, states));
        let r = toggle_window(state, cfg, ev.win, false);
        proof {
            assert(monocle_toggled(s2, *state, *cfg, ev.win, r));
            assert(strictly_sorted(v@) && v@.to_set() == (if wants_fullscreen(*ev) {
                ev.states@.to_set().insert(ev.atoms.wm_state_fullscreen)
            } else {
                ev.states@.to_set().remove(ev.atoms.wm_state_fullscreen)
            }) && actions@ == a1.push(Action::SetWindowStates(ev.win, v)));
        }
    }
    proof {
        assert(hidden_step(*old(state), s1, *ev, old(actions)@, a1));
        assert(desktop_step(s1, s2, *cfg, *ev));
        assert(fullscreen_step(s2, *final(state), *cfg, *ev, a1, final(actions)@));
    }
}

/// Whether `v` holds `x`.
fn vec_contains_u64(v: &Vec<u64>, x: u64) -> (r: bool)
    ensures
        r == v@.contains(x),
{
    let mut i: usize = 0;
    while i < v.len()
        invariant
            i <= v@.len(),
            forall|j: int| 0 <= j < i ==> v@[j] != x,
        decreases v@.len() - i,
    {
        if v[i] == x {
            return true;
        }
        i = i + 1;
    }
    false
}

} // verus!

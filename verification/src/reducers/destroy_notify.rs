//! The X server tells that a client was destroyed.
use vstd::prelude::*;
use crate::config::Config;
use crate::geometry::Window;
use crate::models::client_map::index_of;
use crate::reducers::{drop_shown, mon_shown_updated};
use crate::state::State;
use crate::wm::{same_but_monitors, sound};

verus! {

/// What the notice does: a window of the workspace shown on the current
/// monitor leaves it; nothing else changes.
pub open spec fn destroy_noticed(old: State, new: State, win: Window) -> bool {
    let c = old.cur_mon().cur();
    if win != old.root && c.has_window(win) {
        &&& same_but_monitors(old, new)
        &&& new.current_monitor == old.current_monitor
        &&& new.focus_w == old.focus_w
        &&& mon_shown_updated(old, new, old.current_monitor, c.entries().remove(index_of(c.entries(), win)), c.focus_w)
    } else {
        new == old
    }
}

/// Answers the notice that window `win` was destroyed.
pub fn destroy_notify(state: &mut State, cfg: &Config, win: Window)
    requires
        sound(*old(state), *cfg),
    ensures
        sound(*final(state), *cfg),
        destroy_noticed(*old(state), *final(state), win),
{
    broadcast use vstd::std_specs::hash::group_hash_axioms;

    if win == state.root {
        return;
    }
    let id = state.current_monitor;
    let mon = state.monitors.get(&id).unwrap();
    if mon.contains_window(win) {
        let ws = mon.get_current_ws().unwrap();
        if ws.contains_window(win) {
            let focus = ws.focus_w;
            drop_shown(state, cfg, id, win, focus);
        }
    }
}

} // verus!

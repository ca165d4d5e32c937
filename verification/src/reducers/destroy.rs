//! A client was destroyed.
use vstd::prelude::*;
use crate::config::Config;
use crate::geometry::Window;
use crate::layout::LayoutTag;
use crate::reducers::unmap_notify::dropped;
use crate::reducers::{drop_shown, next_focus, next_focus_of, reorder_if_safe, reordered_if_safe};
use crate::state::State;
use crate::wm::sound;

verus! {

/// What the destruction of window `win` does: when the current monitor
/// holds it, it leaves the workspace shown (when there), the focus goes to
/// `next_focus`, and the workspace is arranged anew when it tiles.  Nothing
/// happens for the root window.
pub open spec fn destroyed(old: State, new: State, cfg: Config, win: Window) -> bool {
    let id = old.current_monitor;
    let m = old.cur_mon();
    let c = m.cur();
    if win != old.root && m.holds(win) {
        let f = next_focus(m, win, old.root);
        exists|mid: State|
            #![trigger sound(mid, cfg)]
            {
                &&& c.has_window(win) ==> dropped(old, mid, id, win, f)
                &&& !c.has_window(win) ==> mid == (State { focus_w: f, ..old })
                &&& sound(mid, cfg)
                &&& c.current_tag != LayoutTag::Floating ==> reordered_if_safe(mid, new, cfg)
                &&& c.current_tag == LayoutTag::Floating ==> new == mid
            }
    } else {
        new == old
    }
}

/// Answers the destruction of window `win`; see `destroyed`.
pub fn destroy(state: &mut State, cfg: &Config, win: Window)
    requires
        sound(*old(state), *cfg),
    ensures
        sound(*final(state), *cfg),
        destroyed(*old(state), *final(state), *cfg, win),
{
    broadcast use vstd::std_specs::hash::group_hash_axioms;

    if win == state.root {
        return;
    }
    let id = state.current_monitor;
    let mon = state.monitors.get(&id).unwrap();
    if !mon.contains_window(win) {
        return;
    }
    let focus = next_focus_of(mon, win, state.root);
    let tiling = mon.get_current_layout() != Some(LayoutTag::Floating);
    if mon.get_current_ws().unwrap().contains_window(win) {
        drop_shown(state, cfg, id, win, focus);
    }
    state.focus_w = focus;
    let ghost mid = *state;
    if tiling {
        reorder_if_safe(state, cfg);
    }
    proof {
        assert(sound(mid, *cfg));
    }
}

} // verus!

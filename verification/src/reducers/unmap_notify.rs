//! A client was unmapped.
use vstd::prelude::*;
use crate::config::Config;
use crate::geometry::Window;
use crate::layout::LayoutTag;
use crate::models::client_map::index_of;
use crate::models::WindowState;
use crate::reducers::{drop_shown, mon_shown_updated, next_focus, next_focus_of, reorder_if_safe, reordered_if_safe};
use crate::state::State;
use crate::wm::{mon_of_window, same_but_monitors, sound, window_monitor};

verus! {

/// `new` is `old` where window `win` left the workspace shown on monitor
/// `id`, whose focus, and the state's, went to `focus`.
pub open spec fn dropped(old: State, new: State, id: u32, win: Window, focus: Window) -> bool {
    let c = old.mons()[id].cur();
    &&& same_but_monitors(old, new)
    &&& new.current_monitor == old.current_monitor
    &&& new.focus_w == focus
    &&& mon_shown_updated(old, new, id, c.entries().remove(index_of(c.entries(), win)), focus)
}

/// What an unmap does: on the monitor that alone holds `win` (else the
/// current one), a window of the workspace shown that is not being
/// destroyed leaves it, and the focus goes to `next_focus`; then, when that
/// monitor's layout tiles, the current workspace is arranged anew.
pub open spec fn unmapped(old: State, new: State, cfg: Config, win: Window) -> bool {
    let id = window_monitor(old, win);
    let m = old.mons()[id];
    let c = m.cur();
    let drop = c.has_window(win) && c.client(win).current_state != WindowState::Destroy;
    exists|mid: State|
        #![trigger sound(mid, cfg)]
        {
            &&& drop ==> dropped(old, mid, id, win, next_focus(m, win, old.root))
            &&& !drop ==> mid == old
            &&& sound(mid, cfg)
            &&& c.current_tag != LayoutTag::Floating ==> reordered_if_safe(mid, new, cfg)
            &&& c.current_tag == LayoutTag::Floating ==> new == mid
        }
}

/// Answers the unmapping of window `win`; see `unmapped`.
pub fn unmap_notify(state: &mut State, cfg: &Config, win: Window)
    requires
        sound(*old(state), *cfg),
    ensures
        sound(*final(state), *cfg),
        unmapped(*old(state), *final(state), *cfg, win),
{
    broadcast use vstd::std_specs::hash::group_hash_axioms;

    let id = mon_of_window(state, win);
    let mon = state.monitors.get(&id).unwrap();
    let tiling = mon.get_current_layout() != Some(LayoutTag::Floating);
    match mon.get_client(win) {
        Some(client) => {
            if client.current_state != WindowState::Destroy {
                let focus = next_focus_of(mon, win, state.root);
                drop_shown(state, cfg, id, win, focus);
                state.focus_w = focus;
            }
        },
        None => {},
    }
    let ghost mid = *state;
    if tiling {
        reorder_if_safe(state, cfg);
    }
    proof {
        assert(sound(mid, *cfg));
    }
}

} // verus!

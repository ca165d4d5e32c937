//! The pointer enters a window.
use vstd::prelude::*;
use crate::config::Config;
use crate::geometry::{Position, Window};
use crate::layout::LayoutTag;
use crate::reducers::{focus_shown, mon_shown_updated};
use crate::state::State;
use crate::wm::{mon_of_window, sound, window_monitor};

verus! {

/// What entering window `win` with the pointer at `pointer` does.  Nothing
/// happens when the pointer has not moved since the last time.  Else the
/// position is kept, the monitor that alone holds `win` becomes the current
/// one, and `win` takes the focus, in the state and in the workspace shown
/// there; the root window of a tiling workspace does not.
pub open spec fn entered(old: State, new: State, win: Window, pointer: Position) -> bool {
    let id = window_monitor(old, win);
    let c = old.mons()[id].cur();
    if old.latest_cursor_pos == pointer {
        new == old
    } else if win == old.root && c.current_tag != LayoutTag::Floating {
        new == (State { latest_cursor_pos: pointer, current_monitor: id, ..old })
    } else {
        &&& new == (State { latest_cursor_pos: pointer, current_monitor: id, focus_w: win, monitors: new.monitors, ..old })
        &&& mon_shown_updated(old, new, id, c.entries(), win)
    }
}

/// Answers the pointer entering window `win`, at `pointer`; see `entered`.
pub fn enter_notify(state: &mut State, cfg: &Config, win: Window, pointer: Position)
    requires
        sound(*old(state), *cfg),
    ensures
        sound(*final(state), *cfg),
        entered(*old(state), *final(state), win, pointer),
{
    broadcast use vstd::std_specs::hash::group_hash_axioms;

    if state.latest_cursor_pos == pointer {
        return;
    }
    let id = mon_of_window(state, win);
    state.latest_cursor_pos = pointer;
    state.current_monitor = id;
    let mon = state.monitors.get(&id).unwrap();
    if win == state.root && mon.get_current_layout() != Some(LayoutTag::Floating) {
        return;
    }
    state.focus_w = win;
    focus_shown(state, cfg, id, win);
}

} // verus!

//! The pointer moves.
use vstd::prelude::*;
use crate::config::Config;
use crate::geometry::{in_range, MonitorId, Position, Rect, Window, COORD_LIMIT};
use crate::layout::floating::column_or_floating_move;
use crate::layout::LayoutTag;
use crate::models::client_map::{index_of, insert_entry, sort_by_toc};
use crate::models::monitor::Monitor;
use crate::models::windowwrapper::WindowWrapper;
use crate::models::WindowState;
use crate::reducers::{mon_shown_updated, shown_ws_updated};
use crate::state::State;
use crate::wm::{drag_in_range, get_monitor_by_point, same_but_monitors, sound, spec_point_is_inside};

verus! {

/// The X modifier mask of the first pointer button.
pub const BUTTON1_MASK: u32 = 256;

/// The pointer moves; the fields hold what the X server reports.
#[derive(Clone, Copy, Debug)]
pub struct MotionNotify {
    pub win: Window,
    pub x_root: i32,
    pub y_root: i32,
    /// The modifier and button mask.
    pub state: u32,
}

/// Where a dragged window goes when the pointer is at `(x, y)`: moved from
/// where the drag started by as much as the pointer moved.
pub open spec fn destination(state: State, x: i32, y: i32) -> Position {
    Position {
        x: (state.drag_start_frame_pos.0 + (x - state.drag_start_pos.0)) as i32,
        y: (state.drag_start_frame_pos.1 + (y - state.drag_start_pos.1)) as i32,
    }
}

/// See `destination`.
pub fn calculcate_destination(state: &State, ev: &MotionNotify) -> (p: Position)
    requires
        drag_in_range(*state),
        in_range(ev.x_root as int),
        in_range(ev.y_root as int),
    ensures
        p == destination(*state, ev.x_root, ev.y_root),
        -3 * COORD_LIMIT <= p.x <= 3 * COORD_LIMIT,
        -3 * COORD_LIMIT <= p.y <= 3 * COORD_LIMIT,
{
    let delta_x = ev.x_root - state.drag_start_pos.0;
    let delta_y = ev.y_root - state.drag_start_pos.1;
    Position { x: state.drag_start_frame_pos.0 + delta_x, y: state.drag_start_frame_pos.1 + delta_y }
}

/// Monitor `id` is one whose screen holds the point `(x, y)`, or the
/// current one when none does.
pub open spec fn point_monitor(state: State, x: i32, y: i32, id: MonitorId) -> bool {
    ||| state.mons().contains_key(id) && spec_point_is_inside(state.mons()[id].screen, x, y)
    ||| (id == state.current_monitor && forall|k: MonitorId| #[trigger] state.mons().contains_key(k)
        ==> !spec_point_is_inside(state.mons()[k].screen, x, y))
}

/// `new` is `old` where monitor `id` became the current one; when it was
/// not, neither it nor the monitor that was current follows the pointer.
pub open spec fn monitor_entered(old: State, new: State, id: MonitorId) -> bool {
    let cur = old.current_monitor;
    if id == cur {
        new == old
    } else {
        &&& new == (State { current_monitor: id, monitors: new.monitors, ..old })
        &&& new.mons() == old.mons().insert(cur, Monitor { mouse_follow: false, ..old.mons()[cur] }).insert(
            id,
            Monitor { mouse_follow: false, ..old.mons()[id] },
        )
    }
}

/// The wrapper of a window dragged to `pos`: unless in monocle it is free
/// there, and remembers where it was.
pub open spec fn dragged_wrapper(ww: WindowWrapper, pos: Position) -> WindowWrapper {
    if ww.current_state != WindowState::Monocle {
        WindowWrapper {
            restore_position: ww.window_rect.pos(),
            window_rect: Rect::mk(pos, ww.window_rect.sz()),
            previous_state: ww.current_state,
            current_state: WindowState::Free,
            ..ww
        }
    } else {
        ww
    }
}

/// What the drag does once the monitor under the pointer is current
/// (`s`), `from` being the monitor that was current before.  A window of
/// the workspace shown that floats (or is transient) is dragged when the
/// first button and the mod key are held: it leaves the workspace shown on
/// `from`, is filed in the one shown on the current monitor, and is moved
/// there as its layout moves windows.  Nothing happens when `from` does not
/// show the window.
pub open spec fn dragged(s: State, new: State, cfg: Config, ev: MotionNotify, from: MonitorId) -> bool {
    let cur = s.current_monitor;
    let m = s.cur_mon();
    let c = m.cur();
    let w = ev.win;
    let mask = BUTTON1_MASK | cfg.mod_key;
    let om = s.mons()[from];
    if !c.has_window(w) || (c.current_tag != LayoutTag::Floating && !c.client(w).is_trans) || (ev.state & mask)
        != mask || w == s.root || !om.cur().has_window(w) {
        new == s
    } else {
        let ww = om.cur().client(w);
        let dest = destination(s, ev.x_root, ev.y_root);
        let pos = column_or_floating_move(
            c.current_tag == LayoutTag::ColumnMaster,
            cfg,
            m.screen,
            m.dock_area,
            true,
            dest.x,
            dest.y,
        ).0;
        let e_from = om.cur().entries().remove(index_of(om.cur().entries(), w));
        let base = if from == cur { e_from } else { c.entries() };
        let e1 = sort_by_toc(insert_entry(base, w, ww));
        let e2 = e1.update(index_of(e1, w), (w, dragged_wrapper(ww, pos)));
        &&& same_but_monitors(s, new)
        &&& new.focus_w == s.focus_w
        &&& new.current_monitor == cur
        &&& if from == cur {
            mon_shown_updated(s, new, cur, e2, c.focus_w)
        } else {
            &&& new.mons().dom() == s.mons().dom()
            &&& forall|k: MonitorId| #[trigger] new.mons().contains_key(k) && k != cur && k != from ==> new.mons()[k] == s.mons()[k]
            &&& shown_ws_updated(om, new.mons()[from], e_from, om.cur().focus_w)
            &&& shown_ws_updated(m, new.mons()[cur], e2, c.focus_w)
        }
    }
}

/// What a pointer motion does: the monitor under the pointer becomes the
/// current one, then the drag goes on; see `dragged`.
pub open spec fn pointer_moved(old: State, new: State, cfg: Config, ev: MotionNotify) -> bool {
    exists|id: MonitorId, s: State|
        #![trigger monitor_entered(old, s, id)]
        point_monitor(old, ev.x_root, ev.y_root, id) && monitor_entered(old, s, id) && sound(s, cfg)
            && dragged(s, new, cfg, ev, old.current_monitor)
}

/// Lets monitor `id` stop following the pointer.
fn stop_following(state: &mut State, cfg: &Config, id: MonitorId)
    requires
        sound(*old(state), *cfg),
        old(state).mons().contains_key(id),
    ensures
        sound(*final(state), *cfg),
        *final(state) == (State { monitors: final(state).monitors, ..*old(state) }),
        final(state).mons() == old(state).mons().insert(id, Monitor { mouse_follow: false, ..old(state).mons()[id] }),
{
    broadcast use vstd::std_specs::hash::group_hash_axioms;

    let mut mon = state.take_monitor(id).unwrap();
    mon.mouse_follow = false;
    state.put_monitor(mon);
    proof {
        let new = *final(state);
        assert(new.mons().dom() =~= old(state).mons().dom());
        assert forall|k: MonitorId| #[trigger] new.mons().contains_key(k) implies new.mons()[k].wf() && new.mons()[k].id == k by {
            assert(old(state).mons().contains_key(k));
        }
        assert forall|k: MonitorId| #[trigger] new.mons().contains_key(k) implies new.mons()[k].inputs_ok(*cfg) by {
            assert(old(state).mons().contains_key(k));
        }
        assert forall|k: MonitorId| #[trigger] new.mons().contains_key(k) implies new.mons()[k].has_current() by {
            assert(old(state).mons().contains_key(k));
        }
    }
}

/// Carries on the drag; see `dragged`.
fn drag(state: &mut State, cfg: &Config, ev: &MotionNotify, from: MonitorId)
    requires
        sound(*old(state), *cfg),
        old(state).mons().contains_key(from),
        in_range(ev.x_root as int),
        in_range(ev.y_root as int),
    ensures
        sound(*final(state), *cfg),
        dragged(*old(state), *final(state), *cfg, *ev, from),
{
    broadcast use vstd::std_specs::hash::group_hash_axioms;

    let cur = state.current_monitor;
    let w = ev.win;
    let mon = state.monitors.get(&cur).unwrap();
    let client = match mon.get_client(w) {
        Some(c) => c,
        None => return,
    };
    if mon.get_current_layout() != Some(LayoutTag::Floating) && !client.is_trans {
        return;
    }
    let dest = calculcate_destination(state, ev);
    let mask = BUTTON1_MASK | cfg.mod_key;
    if ev.state & mask != mask {
        return;
    }
    if w == state.root {
        return;
    }
    let ww = match state.monitors.get(&from).unwrap().get_client(w) {
        Some(ww) => ww,
        None => return,
    };
    let ghost s0 = *state;
    let mut m1 = state.take_monitor(from).unwrap();
    let _ = m1.remove_window(w);
    state.put_monitor(m1);
    let ghost s1 = *state;
    let mut m2 = state.take_monitor(cur).unwrap();
    let ghost m2a = m2;
    m2.add_window(w, ww);
    let ghost m2b = m2;
    let (pos, _) = m2.move_window(cfg, w, dest.x, dest.y);
    let nw = if ww.current_state != WindowState::Monocle {
        let mut nw = ww;
        nw.save_restore_position();
        nw.set_position(pos);
        nw.set_window_state(WindowState::Free);
        nw
    } else {
        ww
    };
    let cw = m2.current_ws;
    let mut wsv = m2.remove_ws(cw).unwrap();
    let ghost e1 = wsv.entries();
    proof {
        crate::models::client_map::lemma_sort_contents(insert_entry(m2a.cur().entries(), w, ww));
        let ins = insert_entry(m2a.cur().entries(), w, ww);
        assert(ins.contains((w, ww))) by {
            if crate::models::client_map::has_key(m2a.cur().entries(), w) {
                assert(ins[index_of(m2a.cur().entries(), w)] == (w, ww));
            } else {
                assert(ins[ins.len() - 1] == (w, ww));
            }
        }
        let k = choose|k: int| 0 <= k < e1.len() && e1[k] == (w, ww);
        assert(crate::models::client_map::has_key(e1, w));
        assert(wsv.client(w) == ww) by {
            let i = index_of(e1, w);
            assert(e1[i].0 == w);
            assert(e1[k].0 == w);
        }
    }
    let _ = wsv.update_client(w, nw);
    m2.add_ws(wsv);
    state.put_monitor(m2);
    proof {
        let new = *final(state);
        let e2 = e1.update(index_of(e1, w), (w, nw));
        assert(new.mons().dom() =~= old(state).mons().dom());
        if from == cur {
            crate::reducers::lemma_mon_update_sound(*old(state), new, *cfg, cur, e2, old(state).cur_mon().cur().focus_w);
        } else {
            let om = old(state).mons()[from];
            let e_from = om.cur().entries().remove(index_of(om.cur().entries(), w));
            crate::reducers::lemma_mon_update_sound(*old(state), s1, *cfg, from, e_from, om.cur().focus_w);
            assert(s1.mons().dom() =~= old(state).mons().dom());
            crate::reducers::lemma_mon_update_sound(s1, new, *cfg, cur, e2, old(state).cur_mon().cur().focus_w);
        }
    }
}

/// Answers a pointer motion; see `pointer_moved`.
pub fn motion_notify(state: &mut State, cfg: &Config, ev: &MotionNotify)
    requires
        sound(*old(state), *cfg),
        in_range(ev.x_root as int),
        in_range(ev.y_root as int),
    ensures
        sound(*final(state), *cfg),
        pointer_moved(*old(state), *final(state), *cfg, *ev),
{
    broadcast use vstd::std_specs::hash::group_hash_axioms;

    let actual = get_monitor_by_point(state, cfg, ev.x_root, ev.y_root);
    let from = state.current_monitor;
    if from != actual {
        stop_following(state, cfg, from);
        state.current_monitor = actual;
        stop_following(state, cfg, actual);
    }
    let ghost s = *state;
    proof {
        if from != actual {
            assert(s.mons() == old(state).mons().insert(from, Monitor { mouse_follow: false, ..old(state).mons()[from] }).insert(
                actual,
                Monitor { mouse_follow: false, ..old(state).mons()[actual] },
            ));
        }
        assert(monitor_entered(*old(state), s, actual));
        assert(point_monitor(*old(state), ev.x_root, ev.y_root, actual));
    }
    drag(state, cfg, ev, from);
}

} // verus!

//! A key is pressed.
use vstd::prelude::*;
use crate::action::Action;
use crate::config::{Axis, Config, Key, KeyAction, KeyEffect};
use crate::geometry::{in_range, MonitorId, Window};
use crate::layout::{resized, LayoutTag};
use crate::models::client_map::{index_of, insert_entry, sort_by_toc, swapped, Entry};
use crate::models::monitor::Monitor;
use crate::models::windowwrapper::WindowWrapper;
use crate::models::workspace::next_layout;
use crate::models::{Direction, WindowState};
use crate::reducers::{lemma_shown_update_sound, next_window, prev_window, reorder_if_safe, reordered_if_safe, shown_now, shown_ws_updated};
use crate::state::State;
use crate::wm::{
    moved_ws, move_to_ws, reorder, reordered, set_current_ws, sound, switched_ws,
    toggle_maximize, toggle_monocle, toggled_maximize, toggled_monocle,
};

verus! {

/// The workspace that the number key with key code `keycode` stands for:
/// the key codes of the keys 1 to 9 follow each other from 10 on.
pub open spec fn spec_keycode_to_ws(keycode: u8) -> u32 {
    ((keycode - 10) % 10) as u32
}

pub fn keycode_to_ws(keycode: u8) -> (ws: u32)
    requires
        keycode >= 10,
    ensures
        ws == spec_keycode_to_ws(keycode),
{
    ((keycode - 10) % 10) as u32
}

/// The clients of the workspace shown, when they hold the focused window.
pub open spec fn focused(state: State) -> bool {
    state.cur_mon().cur().has_window(state.focus_w)
}

/// What `Kill` does: the focused window is marked to be destroyed, in its
/// place; `None` when the workspace shown does not hold it.
pub open spec fn killed(old: State, new: State, r: Option<()>) -> bool {
    let c = old.cur_mon().cur();
    let f = old.focus_w;
    if focused(old) {
        let ww = c.client(f);
        &&& r is Some
        &&& shown_now(
            old,
            new,
            c.entries().update(index_of(c.entries(), f), (f, WindowWrapper { previous_state: ww.current_state, current_state: WindowState::Destroy, ..ww })),
            c.focus_w,
        )
    } else {
        r is None && new == old
    }
}

/// Marks the focused window to be destroyed.
pub fn kill_focused(state: &mut State, cfg: &Config) -> (r: Option<()>)
    requires
        sound(*old(state), *cfg),
    ensures
        sound(*final(state), *cfg),
        killed(*old(state), *final(state), r),
{
    broadcast use vstd::std_specs::hash::group_hash_axioms;

    let cur = state.current_monitor;
    let f = state.focus_w;
    let mut ww = match state.monitors.get(&cur).unwrap().get_client(f) {
        Some(ww) => ww,
        None => return None,
    };
    ww.set_window_state(WindowState::Destroy);
    let mut mon = state.take_monitor(cur).unwrap();
    let cw = mon.current_ws;
    let mut wsv = mon.remove_ws(cw).unwrap();
    let _ = wsv.update_client(f, ww);
    mon.add_ws(wsv);
    state.put_monitor(mon);
    proof {
        assert(final(state).mons().dom() =~= old(state).mons().dom());
        let c = old(state).cur_mon().cur();
        lemma_shown_update_sound(*old(state), *final(state), *cfg, c.entries().update(index_of(c.entries(), f), (f, ww)), c.focus_w);
    }
    Some(())
}

/// The clients of the workspace shown when the focused window is taken
/// out, given to `f` together with the monitor as it then is, and filed
/// again with what `f` makes of it.
pub open spec fn refiled(s: Seq<Entry>, w: Window, nw: WindowWrapper) -> Seq<Entry> {
    sort_by_toc(insert_entry(s.remove(index_of(s, w)), w, nw))
}

/// What toggling the maximization of window `w` does: it is taken out of
/// the workspace shown, remade with the monitor as it then is (the
/// emptiness test of the tiling layouts sees the workspace without it),
/// and filed again; `None` when the workspace shown does not hold it.
pub open spec fn maximize_toggled(old: State, new: State, cfg: Config, w: Window, r: Option<()>) -> bool {
    let m = old.cur_mon();
    let c = m.cur();
    if c.has_window(w) {
        let nw = toggled_maximize(cfg, c.current_tag, c.entries().len() - 1, m.screen, m.dock_area, c.client(w));
        r is Some && shown_now(old, new, refiled(c.entries(), w, nw), c.focus_w)
    } else {
        r is None && new == old
    }
}

/// What toggling the monocle of window `w` does, as `maximize_toggled`.
pub open spec fn monocle_toggled(old: State, new: State, cfg: Config, w: Window, r: Option<()>) -> bool {
    let m = old.cur_mon();
    let c = m.cur();
    if c.has_window(w) {
        let nw = toggled_monocle(cfg, c.current_tag, m.screen, m.dock_area, c.client(w));
        r is Some && shown_now(old, new, refiled(c.entries(), w, nw), c.focus_w)
    } else {
        r is None && new == old
    }
}

/// Takes window `w` out of the workspace shown, lets `maximize` (or else
/// the monocle toggle) remake it with the monitor as it then is, and files
/// it again.
pub fn toggle_window(state: &mut State, cfg: &Config, w: Window, maximize: bool) -> (r: Option<()>)
    requires
        sound(*old(state), *cfg),
    ensures
        sound(*final(state), *cfg),
        maximize ==> maximize_toggled(*old(state), *final(state), *cfg, w, r),
        !maximize ==> monocle_toggled(*old(state), *final(state), *cfg, w, r),
{
    broadcast use vstd::std_specs::hash::group_hash_axioms;

    let cur = state.current_monitor;
    let f = w;
    if !state.monitors.get(&cur).unwrap().get_current_ws().unwrap().contains_window(f) {
        return None;
    }
    let mut mon = state.take_monitor(cur).unwrap();
    let ghost m = mon;
    let ww = mon.remove_window(f).unwrap();
    let nw = if maximize {
        toggle_maximize(cfg, &mon, ww)
    } else {
        toggle_monocle(cfg, &mon, ww)
    };
    mon.add_window(f, nw);
    state.put_monitor(mon);
    proof {
        let s = m.cur().entries();
        crate::models::client_map::lemma_refile(s, f, nw);
        assert(final(state).mons().dom() =~= old(state).mons().dom());
        lemma_shown_update_sound(*old(state), *final(state), *cfg, refiled(s, f, nw), m.cur().focus_w);
    }
    Some(())
}

/// What `Resize(delta, axis)` does: the focused window grows by `delta`
/// along `axis`; `None`, changing nothing, when the workspace shown does
/// not hold it, or when its size or `delta` leaves the computable range.
pub open spec fn resized_focused(old: State, new: State, axis: Axis, delta: i32, r: Option<()>) -> bool {
    let c = old.cur_mon().cur();
    let f = old.focus_w;
    let ww = c.client(f);
    if focused(old) && in_range(ww.window_rect.sz().width as int) && in_range(ww.window_rect.sz().height as int)
        && in_range(delta as int) {
        let nw = if ww.window == f { resized(ww, axis, delta) } else { ww };
        r is Some && shown_now(old, new, refiled(c.entries(), f, nw), c.focus_w)
    } else {
        r is None && new == old
    }
}

/// Grows window `w` of the workspace shown by `delta` along `axis`, as the
/// layout resizes it.
pub fn resize_window(state: &mut State, cfg: &Config, w: Window, axis: &Axis, delta: i32) -> (r: Option<()>)
    requires
        sound(*old(state), *cfg),
        w == old(state).focus_w,
    ensures
        sound(*final(state), *cfg),
        resized_focused(*old(state), *final(state), *axis, delta, r),
{
    broadcast use vstd::std_specs::hash::group_hash_axioms;

    let cur = state.current_monitor;
    let mon = state.monitors.get(&cur).unwrap();
    let ww = match mon.get_client(w) {
        Some(ww) => ww,
        None => return None,
    };
    let size = ww.get_size();
    if !(crate::geometry::value_in_range(size.width) && crate::geometry::value_in_range(size.height)
        && crate::geometry::value_in_range(delta)) {
        return None;
    }
    let one = vec![ww];
    let grown = mon.get_current_ws().unwrap().layout.resize(w, axis, delta, one.as_slice());
    let nw = grown[0];
    assert(one@[0] == ww);
    let mut mon = state.take_monitor(cur).unwrap();
    let ghost m = mon;
    let _ = mon.replace_window(w, nw);
    state.put_monitor(mon);
    proof {
        let s = m.cur().entries();
        crate::models::client_map::lemma_refile(s, w, nw);
        assert(final(state).mons().dom() =~= old(state).mons().dom());
        lemma_shown_update_sound(*old(state), *final(state), *cfg, refiled(s, w, nw), m.cur().focus_w);
    }
    Some(())
}

/// What `Center` does: in the floating layout the focused window is placed
/// as a new window would be, and becomes free; the other layouts leave it.
pub open spec fn centered(old: State, new: State, cfg: Config) -> bool {
    let m = old.cur_mon();
    let c = m.cur();
    let f = old.focus_w;
    if c.current_tag == LayoutTag::Floating && focused(old) {
        let rect = crate::layout::floating::floating_place(m.screen, m.dock_area);
        let ww = c.client(f);
        shown_now(
            old,
            new,
            refiled(c.entries(), f, WindowWrapper { window_rect: rect, previous_state: ww.current_state, current_state: WindowState::Free, ..ww }),
            c.focus_w,
        )
    } else {
        new == old
    }
}

/// Places the focused window of a floating workspace anew.
pub fn center(state: &mut State, cfg: &Config)
    requires
        sound(*old(state), *cfg),
    ensures
        sound(*final(state), *cfg),
        centered(*old(state), *final(state), *cfg),
{
    broadcast use vstd::std_specs::hash::group_hash_axioms;

    let cur = state.current_monitor;
    let f = state.focus_w;
    let mon = state.monitors.get(&cur).unwrap();
    if mon.get_current_layout() != Some(LayoutTag::Floating) {
        return;
    }
    let ww = match mon.get_client(f) {
        Some(ww) => ww,
        None => return,
    };
    let rects = mon.place_window(cfg, f);
    let (_, rect) = rects[0];
    let nw = WindowWrapper { window_rect: rect, previous_state: ww.current_state, current_state: WindowState::Free, ..ww };
    let mut mon = state.take_monitor(cur).unwrap();
    let ghost m = mon;
    let _ = mon.replace_window(f, nw);
    state.put_monitor(mon);
    proof {
        let s = m.cur().entries();
        crate::models::client_map::lemma_refile(s, f, nw);
        assert(final(state).mons().dom() =~= old(state).mons().dom());
        lemma_shown_update_sound(*old(state), *final(state), *cfg, refiled(s, f, nw), m.cur().focus_w);
    }
}

/// What `SwapMaster` does: the focused window and the newest window of the
/// workspace shown trade their times, so that the focused one becomes the
/// master, and the workspace is arranged anew.  `None`, changing nothing,
/// when the workspace is empty or does not hold the focused window; `Some`,
/// changing nothing, when the focused window is the newest.
pub open spec fn master_swapped(old: State, new: State, cfg: Config, r: Option<()>) -> bool {
    let c = old.cur_mon().cur();
    let f = old.focus_w;
    let s = c.entries();
    if s.len() == 0 {
        r is None && new == old
    } else if s.last().0 == f {
        r is Some && new == old
    } else if !focused(old) {
        r is None && new == old
    } else {
        let newest = s.last();
        let ww = c.client(f);
        let s1 = refiled(s, f, WindowWrapper { toc: newest.1.toc, ..ww });
        let s2 = refiled(s1, newest.0, WindowWrapper { toc: ww.toc, ..s1[index_of(s1, newest.0)].1 });
        &&& r is Some
        &&& exists|mid: State| #[trigger] shown_now(old, mid, s2, c.focus_w) && sound(mid, cfg) && reordered_if_safe(mid, new, cfg)
    }
}

/// Makes the focused window the master of the workspace shown.
pub fn swap_master(state: &mut State, cfg: &Config) -> (r: Option<()>)
    requires
        sound(*old(state), *cfg),
    ensures
        sound(*final(state), *cfg),
        master_swapped(*old(state), *final(state), *cfg, r),
{
    broadcast use vstd::std_specs::hash::group_hash_axioms;

    let cur = state.current_monitor;
    let f = state.focus_w;
    let mon = state.monitors.get(&cur).unwrap();
    let (win, client) = match mon.get_newest() {
        Some(e) => e,
        None => return None,
    };
    if win == f {
        return Some(());
    }
    let ww = match mon.get_client(f) {
        Some(ww) => ww,
        None => return None,
    };
    let mut mon = state.take_monitor(cur).unwrap();
    let ghost m = mon;
    let ghost s = m.cur().entries();
    let nw1 = WindowWrapper { toc: client.toc, ..ww };
    let _ = mon.replace_window(f, nw1);
    proof {
        crate::models::client_map::lemma_refile(s, f, nw1);
        assert(crate::models::client_map::has_key(s, win)) by {
            assert(s[s.len() - 1].0 == win);
        }
    }
    let ghost s1 = mon.cur().entries();
    let other = mon.get_client(win).unwrap();
    let nw2 = WindowWrapper { toc: ww.toc, ..other };
    let _ = mon.replace_window(win, nw2);
    proof {
        crate::models::client_map::lemma_refile(s1, win, nw2);
    }
    state.put_monitor(mon);
    let ghost mid = *state;
    proof {
        assert(mid.mons().dom() =~= old(state).mons().dom());
        lemma_shown_update_sound(*old(state), mid, *cfg, refiled(s1, win, nw2), m.cur().focus_w);
        assert(shown_now(*old(state), mid, refiled(s1, win, nw2), m.cur().focus_w));
    }
    reorder_if_safe(state, cfg);
    Some(())
}

/// What `CirculateLayout` does to the workspace shown before it is arranged
/// anew: it takes the next layout of the cycle, and the change is told.
pub open spec fn layout_cycled(old: State, new: State, acts: Seq<Action>, new_acts: Seq<Action>) -> bool {
    let m = old.cur_mon();
    let c = m.cur();
    let n = new.cur_mon();
    &&& crate::wm::same_but_monitors(old, new)
    &&& new.focus_w == old.focus_w
    &&& new.current_monitor == old.current_monitor
    &&& new.mons().dom() == old.mons().dom()
    &&& forall|k: MonitorId| #[trigger] new.mons().contains_key(k) && k != old.current_monitor ==> new.mons()[k] == old.mons()[k]
    &&& crate::wm::same_monitor_frame(m, n)
    &&& n.wss().dom() == m.wss().dom()
    &&& forall|k: u32| #[trigger] n.wss().contains_key(k) && k != m.current_ws ==> n.wss()[k] == m.wss()[k]
    &&& n.cur().tag == c.tag
    &&& n.cur().focus_w == c.focus_w
    &&& n.cur().entries() == c.entries()
    &&& n.cur().current_tag == next_layout(c.current_tag)
    &&& new_acts == acts.push(Action::NotifyLayout(next_layout(c.current_tag)))
}

/// Switches the workspace shown to the next layout, and tells so.
pub fn cycle_layout(state: &mut State, cfg: &Config, actions: &mut Vec<Action>)
    requires
        sound(*old(state), *cfg),
    ensures
        sound(*final(state), *cfg),
        layout_cycled(*old(state), *final(state), old(actions)@, final(actions)@),
{
    broadcast use vstd::std_specs::hash::group_hash_axioms;

    let cur = state.current_monitor;
    let mut mon = state.take_monitor(cur).unwrap();
    let ghost m = mon;
    let cw = mon.current_ws;
    let mut wsv = mon.remove_ws(cw).unwrap();
    wsv.cycle_layout();
    let tag = wsv.get_current_layout();
    mon.add_ws(wsv);
    state.put_monitor(mon);
    actions.push(Action::NotifyLayout(tag));
    proof {
        let new = *final(state);
        assert(new.mons().dom() =~= old(state).mons().dom());
        assert forall|id: MonitorId| #[trigger] new.mons().contains_key(id) implies new.mons()[id].wf() && new.mons()[id].id == id by {
            assert(old(state).mons().contains_key(id));
        }
        assert forall|id: MonitorId| #[trigger] new.mons().contains_key(id) implies new.mons()[id].inputs_ok(*cfg) by {
            assert(old(state).mons().contains_key(id));
        }
        assert forall|id: MonitorId| #[trigger] new.mons().contains_key(id) implies new.mons()[id].has_current() by {
            assert(old(state).mons().contains_key(id));
        }
    }
}

/// Where the focus of a tiled workspace goes: north and south to the
/// previous and next window, west to the newest (the master), unless the
/// workspace's focus is on the master already; east from the master to the
/// next window.  The pair is the workspace's focus and the state's.
pub open spec fn tiled_focus(m: Monitor, f: Window, dir: Direction) -> (Window, Window) {
    let c = m.cur();
    let newest = c.entries().last().0;
    let prev = prev_window(m, f);
    let next = next_window(m, f);
    let first: (Window, Window) = if c.focus_w != newest {
        match dir {
            Direction::North => match prev {
                Some(p) => (p, p),
                None => (c.focus_w, f),
            },
            Direction::South => match next {
                Some(n) => (n, n),
                None => (c.focus_w, f),
            },
            Direction::West => (newest, newest),
            _ => (c.focus_w, f),
        }
    } else {
        (c.focus_w, f)
    };
    if first.1 == newest && dir == Direction::East {
        match next {
            Some(n) => (n, n),
            None => first,
        }
    } else {
        first
    }
}

/// The clients `s` after each wrapper of `ws` took the place of the window
/// it names, snapped towards `dir`, keeping the state it had as the one to
/// go back to.
pub open spec fn snap_all(s: Seq<Entry>, ws: Seq<WindowWrapper>, dir: Direction) -> Seq<Entry>
    decreases ws.len(),
{
    if ws.len() == 0 {
        s
    } else {
        let s1 = snap_all(s, ws.drop_last(), dir);
        let win = ws.last();
        if crate::models::client_map::has_key(s1, win.window) {
            let ww = s1[index_of(s1, win.window)].1;
            swapped(s1, win.window, WindowWrapper { previous_state: ww.current_state, current_state: WindowState::Snapped(dir), ..win })
        } else {
            s1
        }
    }
}

/// What `ShiftWindow(dir)` does.  In a tiling layout the focus moves, see
/// `tiled_focus` (`None` on an empty workspace).  In the floating layout
/// the focused window snaps towards `dir`; nothing happens when the focus
/// is on the root window, or on a window that the workspace shown does not
/// hold.
pub open spec fn window_shifted(old: State, new: State, cfg: Config, dir: Direction, r: Option<()>) -> bool {
    let m = old.cur_mon();
    let c = m.cur();
    let f = old.focus_w;
    if c.current_tag != LayoutTag::Floating {
        if c.entries().len() == 0 {
            r is None && new == old
        } else {
            let (wf, sf) = tiled_focus(m, f, dir);
            &&& r is Some
            &&& crate::wm::same_but_monitors(old, new)
            &&& new.focus_w == sf
            &&& new.current_monitor == old.current_monitor
            &&& new.mons().dom() == old.mons().dom()
            &&& forall|k: MonitorId| #[trigger] new.mons().contains_key(k) && k != old.current_monitor ==> new.mons()[k] == old.mons()[k]
            &&& shown_ws_updated(m, new.cur_mon(), c.entries(), wf)
        }
    } else if f == old.root || !focused(old) {
        r is Some && new == old
    } else {
        let ws = crate::layout::floating::snapped_windows(cfg, m.screen, m.dock_area, c.client(f), dir, false);
        r is Some && shown_now(old, new, snap_all(c.entries(), ws, dir), c.focus_w)
    }
}

/// Moves the focus, or snaps the focused window; see `window_shifted`.
pub fn shift_window(state: &mut State, cfg: &Config, direction: Direction) -> (r: Option<()>)
    requires
        sound(*old(state), *cfg),
    ensures
        sound(*final(state), *cfg),
        window_shifted(*old(state), *final(state), *cfg, direction, r),
{
    broadcast use vstd::std_specs::hash::group_hash_axioms;

    let cur = state.current_monitor;
    let f = state.focus_w;
    let mon = state.monitors.get(&cur).unwrap();
    let previous = match mon.get_previous(f) {
        Some(ww) => Some(ww.window()),
        None => None,
    };
    let next = match mon.get_next(f) {
        Some(ww) => Some(ww.window()),
        None => None,
    };
    let layout = mon.get_current_layout().unwrap();
    if layout != LayoutTag::Floating {
        let newest = match mon.get_newest() {
            Some((win, _)) => win,
            None => return None,
        };
        let mut mon = state.take_monitor(cur).unwrap();
        let ghost m = mon;
        let cw = mon.current_ws;
        let mut wsv = mon.remove_ws(cw).unwrap();
        if wsv.focus_w != newest {
            match direction {
                Direction::North => {
                    if let Some(win) = previous {
                        wsv.focus_w = win;
                        state.focus_w = win;
                    }
                },
                Direction::South => {
                    if let Some(win) = next {
                        wsv.focus_w = win;
                        state.focus_w = win;
                    }
                },
                Direction::West => {
                    wsv.focus_w = newest;
                    state.focus_w = newest;
                },
                _ => {},
            }
        }
        if state.focus_w == newest && direction == Direction::East {
            if let Some(win) = next {
                wsv.focus_w = win;
                state.focus_w = win;
            }
        }
        mon.add_ws(wsv);
        state.put_monitor(mon);
        proof {
            let new = *final(state);
            assert(new.mons().dom() =~= old(state).mons().dom());
            assert forall|id: MonitorId| #[trigger] new.mons().contains_key(id) implies new.mons()[id].wf() && new.mons()[id].id == id by {
                assert(old(state).mons().contains_key(id));
            }
            assert forall|id: MonitorId| #[trigger] new.mons().contains_key(id) implies new.mons()[id].inputs_ok(*cfg) by {
                assert(old(state).mons().contains_key(id));
            }
            assert forall|id: MonitorId| #[trigger] new.mons().contains_key(id) implies new.mons()[id].has_current() by {
                assert(old(state).mons().contains_key(id));
            }
        }
        return Some(());
    }
    if f == state.root {
        return Some(());
    }
    if !mon.get_current_ws().unwrap().contains_window(f) {
        return Some(());
    }
    let windows = mon.shift_window(cfg, f, direction);
    let mut mon = state.take_monitor(cur).unwrap();
    let ghost m = mon;
    let mut i: usize = 0;
    while i < windows.len()
        invariant
            i <= windows@.len(),
            mon.wf(),
            crate::wm::same_monitor_frame(m, mon),
            mon.wss().dom() == m.wss().dom(),
            forall|k: u32| #[trigger] mon.wss().contains_key(k) && k != m.current_ws ==> mon.wss()[k] == m.wss()[k],
            mon.cur().tag == m.cur().tag,
            mon.cur().focus_w == m.cur().focus_w,
            mon.cur().current_tag == m.cur().current_tag,
            mon.cur().entries() == snap_all(m.cur().entries(), windows@.take(i as int), direction),
            mon.cur().entries().len() == m.cur().entries().len(),
            m.has_current(),
        decreases windows@.len() - i,
    {
        let win = windows[i];
        proof {
            assert(windows@.take(i as int + 1).drop_last() =~= windows@.take(i as int));
        }
        let ghost before = mon;
        match mon.get_client(win.window()) {
            Some(ww) => {
                let nw = WindowWrapper { previous_state: ww.current_state, current_state: WindowState::Snapped(direction), ..win };
                let _ = mon.replace_window(win.window(), nw);
                proof {
                    crate::models::client_map::lemma_refile(before.cur().entries(), win.window, nw);
                    assert forall|k: u32| #[trigger] mon.wss().contains_key(k) && k != m.current_ws implies mon.wss()[k] == m.wss()[k] by {
                        assert(before.wss().contains_key(k));
                    }
                }
            },
            None => {},
        }
        i = i + 1;
    }
    state.put_monitor(mon);
    proof {
        assert(windows@.take(windows@.len() as int) =~= windows@);
        assert(final(state).mons().dom() =~= old(state).mons().dom());
        lemma_shown_update_sound(*old(state), *final(state), *cfg, snap_all(m.cur().entries(), windows@, direction), m.cur().focus_w);
    }
    Some(())
}

/// `new_acts` is `acts` and a start of `prog` with the arguments `args`.
pub open spec fn spawned(acts: Seq<Action>, new_acts: Seq<Action>, prog: String, args: Seq<String>) -> bool {
    exists|v: Vec<String>| v@ == args && new_acts == acts.push(Action::Spawn(prog, v))
}

/// The layout of the workspace shown arranges it anew when it tiles.
pub open spec fn reordered_if_tiling(old: State, new: State, cfg: Config) -> bool {
    if old.cur_mon().cur().current_tag != LayoutTag::Floating {
        exists|r: Option<()>| reordered(old, new, cfg, r)
    } else {
        new == old
    }
}

pub fn reorder_if_tiling(state: &mut State, cfg: &Config)
    requires
        sound(*old(state), *cfg),
    ensures
        sound(*final(state), *cfg),
        reordered_if_tiling(*old(state), *final(state), *cfg),
{
    broadcast use vstd::std_specs::hash::group_hash_axioms;

    if state.monitors.get(&state.current_monitor).unwrap().get_current_layout() != Some(LayoutTag::Floating) {
        let r = reorder(state, cfg);
        proof {
            assert(reordered(*old(state), *final(state), *cfg, r));
        }
    }
}

/// What `MoveToWorkspace` does for workspace `ws`: the focused window moves
/// there, the workspace shown is arranged anew when it tiles, `ws` is
/// shown and arranged anew when it tiles, and the pointer is to follow.
/// `None` when `ws` could not be shown; the pointer is then left.
pub open spec fn moved_and_shown(old: State, new: State, cfg: Config, ws: u32, acts: Seq<Action>, new_acts: Seq<Action>, r: Option<()>) -> bool {
    exists|m1: State, m2: State, m3: State, r1: Option<()>, r3: Option<()>|
        #![trigger moved_ws(old, m1, cfg, old.focus_w, ws, r1, acts, new_acts), switched_ws(m2, m3, cfg, ws, r3)]
        {
            &&& moved_ws(old, m1, cfg, old.focus_w, ws, r1, acts, new_acts)
            &&& sound(m1, cfg)
            &&& reordered_if_tiling(m1, m2, cfg)
            &&& sound(m2, cfg)
            &&& switched_ws(m2, m3, cfg, ws, r3)
            &&& sound(m3, cfg)
            &&& r3 is None ==> r is None && new == m3
            &&& r3 is Some ==> r is Some && exists|m4: State| #[trigger] reordered_if_tiling(m3, m4, cfg) && new == (State { mouse_follow: true, ..m4 })
        }
}

/// What `ChangeCurrentWorkspace` does for workspace `ws`: `ws` is shown and
/// the pointer is to follow.
pub open spec fn ws_changed(old: State, new: State, cfg: Config, ws: u32) -> bool {
    exists|m1: State, r1: Option<()>| #[trigger] switched_ws(old, m1, cfg, ws, r1) && new == (State { mouse_follow: true, ..m1 })
}

/// What the effect of a key binding does, the key with code `keycode`
/// being pressed; `ws_keys` are the key codes of the number keys.
pub open spec fn key_effect(
    old: State,
    new: State,
    cfg: Config,
    keycode: u8,
    ws_keys: Seq<u8>,
    effect: KeyEffect,
    acts: Seq<Action>,
    new_acts: Seq<Action>,
    r: Option<()>,
) -> bool {
    let number = ws_keys.contains(keycode);
    match effect {
        KeyEffect::Kill => killed(old, new, r) && new_acts == acts,
        KeyEffect::OpenTerm => r is Some && new == old && spawned(acts, new_acts, cfg.term, Seq::empty()),
        KeyEffect::Resize(delta, axis) => new_acts == acts && r is Some && exists|r2: Option<()>|
            #[trigger] resized_focused(old, new, axis, delta, r2),
        KeyEffect::Exit => r is Some && new == old && new_acts == acts.push(Action::Exit),
        KeyEffect::ToggleMonocle => r is Some && new_acts == acts && exists|r2: Option<()>|
            #[trigger] monocle_toggled(old, new, cfg, old.focus_w, r2),
        KeyEffect::ToggleMaximize => r is Some && new_acts == acts && exists|r2: Option<()>|
            #[trigger] maximize_toggled(old, new, cfg, old.focus_w, r2),
        KeyEffect::CirculateLayout => r is Some && exists|mid: State, mid_acts: Seq<Action>|
            #[trigger] layout_cycled(old, mid, acts, mid_acts) && sound(mid, cfg) && reordered_if_safe(mid, new, cfg)
                && new_acts == mid_acts,
        KeyEffect::ShiftWindow(dir) => r is Some && new_acts == acts && exists|r2: Option<()>|
            #[trigger] window_shifted(old, new, cfg, dir, r2),
        KeyEffect::ChangeCurrentWorkspace => r is Some && new_acts == acts && if number {
            ws_changed(old, new, cfg, spec_keycode_to_ws(keycode))
        } else {
            new == old
        },
        KeyEffect::MoveToWorkspace => if number {
            moved_and_shown(old, new, cfg, spec_keycode_to_ws(keycode), acts, new_acts, r)
        } else {
            r is Some && new == old && new_acts == acts
        },
        KeyEffect::SwapMaster => r is Some && new_acts == acts && exists|r2: Option<()>|
            #[trigger] master_swapped(old, new, cfg, r2),
        KeyEffect::Center => r is Some && new_acts == acts && centered(old, new, cfg),
        KeyEffect::Reorder => r is Some && new_acts == acts && if old.cur_mon().cur().current_tag == LayoutTag::Floating {
            reordered_if_safe(old, new, cfg)
        } else {
            new == old
        },
        KeyEffect::Custom(cmd) => r is Some && new == old && spawned(acts, new_acts, cmd.program, cmd.args@),
        KeyEffect::Snap(_) => r is Some && new == old && new_acts == acts,
    }
}

/// Carries out the effect of a key binding; see `key_effect`.
///
/// Where a floating workspace would be arranged anew while it is empty and
/// the focus is off the root window, nothing is arranged.
pub fn handle_key_effect(
    state: &mut State,
    cfg: &Config,
    keycode: u8,
    ws_keys: &Vec<u8>,
    effect: &KeyEffect,
    actions: &mut Vec<Action>,
) -> (r: Option<()>)
    requires
        sound(*old(state), *cfg),
        ws_keys@.contains(keycode) ==> keycode >= 10,
    ensures
        sound(*final(state), *cfg),
        key_effect(*old(state), *final(state), *cfg, keycode, ws_keys@, *effect, old(actions)@, final(actions)@, r),
{
    broadcast use vstd::std_specs::hash::group_hash_axioms;

    match effect {
        KeyEffect::Kill => {
            return kill_focused(state, cfg);
        },
        KeyEffect::OpenTerm => {
            let v: Vec<String> = Vec::new();
            actions.push(Action::Spawn(cfg.term.clone(), v));
        },
        KeyEffect::Resize(delta, axis) => {
            let f = state.focus_w;
            let _ = resize_window(state, cfg, f, axis, *delta);
        },
        KeyEffect::Exit => {
            actions.push(Action::Exit);
        },
        KeyEffect::ToggleMonocle => {
            let f = state.focus_w;
            let _ = toggle_window(state, cfg, f, false);
        },
        KeyEffect::ToggleMaximize => {
            let f = state.focus_w;
            let _ = toggle_window(state, cfg, f, true);
        },
        KeyEffect::CirculateLayout => {
            cycle_layout(state, cfg, actions);
            let ghost mid = *state;
            let ghost mid_acts = actions@;
            reorder_if_safe(state, cfg);
            proof {
                assert(layout_cycled(*old(state), mid, old(actions)@, mid_acts));
            }
        },
        KeyEffect::ShiftWindow(direction) => {
            let _ = shift_window(state, cfg, *direction);
        },
        KeyEffect::ChangeCurrentWorkspace => {
            if vec_contains(ws_keys, keycode) {
                let ws_num = keycode_to_ws(keycode);
                let r1 = set_current_ws(state, cfg, ws_num);
                proof {
                    assert(switched_ws(*old(state), *state, *cfg, ws_num, r1));
                }
                state.mouse_follow = true;
            }
        },
        KeyEffect::MoveToWorkspace => {
            if vec_contains(ws_keys, keycode) {
                let ws_num = keycode_to_ws(keycode);
                let f = state.focus_w;
                let r1 = move_to_ws(state, cfg, f, ws_num, actions);
                let ghost m1 = *state;
                reorder_if_tiling(state, cfg);
                let ghost m2 = *state;
                let r3 = set_current_ws(state, cfg, ws_num);
                let ghost m3 = *state;
                proof {
                    assert(moved_ws(*old(state), m1, *cfg, old(state).focus_w, ws_num, r1, old(actions)@, final(actions)@));
                    assert(switched_ws(m2, m3, *cfg, ws_num, r3));
                }
                if r3.is_none() {
                    return None;
                }
                reorder_if_tiling(state, cfg);
                let ghost m4 = *state;
                state.mouse_follow = true;
                proof {
                    assert(reordered_if_tiling(m3, m4, *cfg));
                }
            }
        },
        KeyEffect::SwapMaster => {
            let _ = swap_master(state, cfg);
        },
        KeyEffect::Center => {
            center(state, cfg);
        },
        KeyEffect::Reorder => {
            let layout = state.monitors.get(&state.current_monitor).unwrap().get_current_layout();
            if layout == Some(LayoutTag::Floating) {
                reorder_if_safe(state, cfg);
            }
        },
        KeyEffect::Custom(command) => {
            actions.push(Action::Spawn(command.program.clone(), command.args.clone()));
        },
        KeyEffect::Snap(_) => {},
    }
    Some(())
}

/// Whether `v` holds `x`.
fn vec_contains(v: &Vec<u8>, x: u8) -> (r: bool)
    ensures
        r == v@.contains(x),
{
    let mut i: usize = 0;
    while i < v.len()
        invariant
            i <= v@.len(),
            forall|j: int| 0 <= j < i ==> v@[j] != x,
        decreases v@.len() - i,
    {
        if v[i] == x {
            return true;
        }
        i = i + 1;
    }
    false
}

/// A key is pressed; the fields hold what the X server reports, the key
/// codes read from its keyboard mapping among them.
#[derive(Clone, Debug)]
pub struct KeyPress {
    pub win: Window,
    /// The modifier mask.
    pub state: u32,
    pub keycode: u8,
    /// The key's symbol is one of the XF86 symbols.
    pub is_xf86: bool,
    /// The key codes of the keys 1 to 9.
    pub ws_keys: Vec<u8>,
    /// For each key binding of the configuration, in order: the modifier
    /// mask that its modifier names (zero without one) and the key code of
    /// its named key (`None` for the number keys or an unknown name).
    pub bindings: Vec<(u32, Option<u8>)>,
}

/// A binding fires on the key press: a binding with a modifier fires when
/// a modifier besides the configured mod key is held (`has_mod`) and its
/// modifier is among those held, one without when none is; a named key
/// must be the key pressed, the number keys any of the keys 1 to 9.  On
/// the root window (`!managed`) a number binding with a modifier does not
/// fire.
pub open spec fn fires(b: KeyAction, r: (u32, Option<u8>), ev: KeyPress, has_mod: bool, managed: bool) -> bool {
    match (b.mod_key, b.key) {
        (Some(_), Key::Letter(_)) => has_mod && (ev.state & r.0) == r.0 && r.1 == Some(ev.keycode),
        (None, Key::Letter(_)) => !has_mod && r.1 == Some(ev.keycode),
        (Some(_), Key::Number) => managed && has_mod && ev.ws_keys@.contains(ev.keycode) && (ev.state & r.0) == r.0,
        (None, Key::Number) => !has_mod && ev.ws_keys@.contains(ev.keycode),
    }
}

/// The effects of the bindings among the first `n` that fire, in order.
pub open spec fn fired(bs: Seq<KeyAction>, rs: Seq<(u32, Option<u8>)>, n: int, ev: KeyPress, has_mod: bool, managed: bool) -> Seq<KeyEffect>
    decreases n,
{
    if n <= 0 {
        Seq::empty()
    } else {
        let before = fired(bs, rs, n - 1, ev, has_mod, managed);
        if fires(bs[n - 1], rs[n - 1], ev, has_mod, managed) {
            before.push(bs[n - 1].effect)
        } else {
            before
        }
    }
}

/// `states` and `actss` trace the effects `es` carried out one after the
/// other, each on a sound state.
pub open spec fn effects_trace(states: Seq<State>, actss: Seq<Seq<Action>>, cfg: Config, ev: KeyPress, es: Seq<KeyEffect>) -> bool {
    &&& states.len() == es.len() + 1
    &&& actss.len() == es.len() + 1
    &&& forall|i: int| 0 <= i < es.len() ==> sound(#[trigger] states[i], cfg)
    &&& forall|i: int| 0 <= i < es.len() ==> #[trigger] step_done(states, actss, cfg, ev, es, i)
}

/// The `i`th effect of `es` leads from the `i`th state of the trace to the
/// next.
pub open spec fn step_done(states: Seq<State>, actss: Seq<Seq<Action>>, cfg: Config, ev: KeyPress, es: Seq<KeyEffect>, i: int) -> bool {
    exists|r: Option<()>| #[trigger] key_effect(states[i], states[i + 1], cfg, ev.keycode, ev.ws_keys@, es[i], actss[i], actss[i + 1], r)
}

/// The effects `es` carried out one after the other, each on a sound state.
pub open spec fn effects_applied(old: State, new: State, cfg: Config, ev: KeyPress, es: Seq<KeyEffect>, acts: Seq<Action>, new_acts: Seq<Action>) -> bool {
    exists|states: Seq<State>, actss: Seq<Seq<Action>>|
        #[trigger] effects_trace(states, actss, cfg, ev, es)
            && states[0] == old && states.last() == new && actss[0] == acts && actss.last() == new_acts
}

/// A modifier besides the configured mod key is held.
pub open spec fn has_other_mod(cfg: Config, ev: KeyPress) -> bool {
    ev.state & !cfg.mod_key != 0
}

/// The key press counts: the mod key is held, or the key is an XF86 key.
pub open spec fn counts(cfg: Config, ev: KeyPress) -> bool {
    (ev.state & cfg.mod_key) == cfg.mod_key || ev.is_xf86
}

/// What a key press does: when it counts, on a focused window of the
/// workspace shown (`managed`) or on the root window, the effects of the
/// bindings that fire are carried out in the order of the configuration.
pub open spec fn key_pressed(old: State, new: State, cfg: Config, ev: KeyPress, acts: Seq<Action>, new_acts: Seq<Action>) -> bool {
    let managed = focused(old);
    if counts(cfg, ev) && (managed || ev.win == old.root) {
        let es = fired(cfg.key_bindings@, ev.bindings@, cfg.key_bindings@.len() as int, ev, has_other_mod(cfg, ev), managed);
        effects_applied(old, new, cfg, ev, es, acts, new_acts)
    } else {
        new == old && new_acts == acts
    }
}

/// Carries out the bindings that fire, `managed` telling whether the focus
/// is on a window of the workspace shown.
fn apply_bindings(state: &mut State, cfg: &Config, ev: &KeyPress, has_mod: bool, managed: bool, actions: &mut Vec<Action>)
    requires
        sound(*old(state), *cfg),
        ev.bindings@.len() == cfg.key_bindings@.len(),
        forall|i: int| 0 <= i < ev.ws_keys@.len() ==> ev.ws_keys@[i] >= 10,
    ensures
        sound(*final(state), *cfg),
        effects_applied(
            *old(state),
            *final(state),
            *cfg,
            *ev,
            fired(cfg.key_bindings@, ev.bindings@, cfg.key_bindings@.len() as int, *ev, has_mod, managed),
            old(actions)@,
            final(actions)@,
        ),
{
    let ghost mut states: Seq<State> = seq![*state];
    let ghost mut actss: Seq<Seq<Action>> = seq![actions@];
    let mut i: usize = 0;
    while i < cfg.key_bindings.len()
        invariant
            i <= cfg.key_bindings@.len(),
            ev.bindings@.len() == cfg.key_bindings@.len(),
            forall|j: int| 0 <= j < ev.ws_keys@.len() ==> ev.ws_keys@[j] >= 10,
            sound(*state, *cfg),
            effects_trace(states, actss, *cfg, *ev, fired(cfg.key_bindings@, ev.bindings@, i as int, *ev, has_mod, managed)),
            states[0] == *old(state),
            states.last() == *state,
            actss[0] == old(actions)@,
            actss.last() == actions@,
        decreases cfg.key_bindings@.len() - i,
    {
        let b = &cfg.key_bindings[i];
        let (mask, code) = ev.bindings[i];
        let number = vec_contains(&ev.ws_keys, ev.keycode);
        let fire = match (&b.mod_key, &b.key) {
            (Some(_), Key::Letter(_)) => has_mod && (ev.state & mask) == mask && code == Some(ev.keycode),
            (None, Key::Letter(_)) => !has_mod && code == Some(ev.keycode),
            (Some(_), Key::Number) => managed && has_mod && number && (ev.state & mask) == mask,
            (None, Key::Number) => !has_mod && number,
        };
        proof {
            assert(fire == fires(cfg.key_bindings@[i as int], ev.bindings@[i as int], *ev, has_mod, managed));
            if number {
                let k = choose|k: int| 0 <= k < ev.ws_keys@.len() && ev.ws_keys@[k] == ev.keycode;
                assert(ev.ws_keys@[k] >= 10);
            }
        }
        if fire {
            let ghost mid = *state;
            let ghost mid_acts = actions@;
            let r = handle_key_effect(state, cfg, ev.keycode, &ev.ws_keys, &b.effect, actions);
            proof {
                let es0 = fired(cfg.key_bindings@, ev.bindings@, i as int, *ev, has_mod, managed);
                let es = fired(cfg.key_bindings@, ev.bindings@, i as int + 1, *ev, has_mod, managed);
                assert(es == es0.push(b.effect));
                let states0 = states;
                let actss0 = actss;
                states = states.push(*state);
                actss = actss.push(actions@);
                assert forall|k: int| 0 <= k < es.len() implies sound(#[trigger] states[k], *cfg) by {
                    if k < es0.len() {
                        assert(states[k] == states0[k]);
                    }
                }
                assert forall|k: int| 0 <= k < es.len() implies #[trigger] step_done(states, actss, *cfg, *ev, es, k) by {
                    if k < es0.len() {
                        assert(states[k] == states0[k] && states[k + 1] == states0[k + 1]);
                        assert(actss[k] == actss0[k] && actss[k + 1] == actss0[k + 1]);
                        assert(es[k] == es0[k]);
                        assert(step_done(states0, actss0, *cfg, *ev, es0, k));
                    } else {
                        assert(key_effect(states[k], states[k + 1], *cfg, ev.keycode, ev.ws_keys@, es[k], actss[k], actss[k + 1], r));
                    }
                }
            }
        } else {
            proof {
                assert(fired(cfg.key_bindings@, ev.bindings@, i as int + 1, *ev, has_mod, managed)
                    == fired(cfg.key_bindings@, ev.bindings@, i as int, *ev, has_mod, managed));
            }
        }
        i = i + 1;
    }
    proof {
        let es = fired(cfg.key_bindings@, ev.bindings@, cfg.key_bindings@.len() as int, *ev, has_mod, managed);
        assert(effects_trace(states, actss, *cfg, *ev, es) && states[0] == *old(state) && states.last() == *state
            && actss[0] == old(actions)@ && actss.last() == actions@);
    }
}

/// Answers a key press on a window of the workspace shown.
fn managed_client(state: &mut State, cfg: &Config, ev: &KeyPress, has_mod: bool, actions: &mut Vec<Action>)
    requires
        sound(*old(state), *cfg),
        ev.bindings@.len() == cfg.key_bindings@.len(),
        forall|i: int| 0 <= i < ev.ws_keys@.len() ==> ev.ws_keys@[i] >= 10,
    ensures
        sound(*final(state), *cfg),
        effects_applied(
            *old(state),
            *final(state),
            *cfg,
            *ev,
            fired(cfg.key_bindings@, ev.bindings@, cfg.key_bindings@.len() as int, *ev, has_mod, true),
            old(actions)@,
            final(actions)@,
        ),
{
    apply_bindings(state, cfg, ev, has_mod, true, actions);
}

/// Answers a key press on the root window.
fn root(state: &mut State, cfg: &Config, ev: &KeyPress, has_mod: bool, actions: &mut Vec<Action>)
    requires
        sound(*old(state), *cfg),
        ev.bindings@.len() == cfg.key_bindings@.len(),
        forall|i: int| 0 <= i < ev.ws_keys@.len() ==> ev.ws_keys@[i] >= 10,
    ensures
        sound(*final(state), *cfg),
        effects_applied(
            *old(state),
            *final(state),
            *cfg,
            *ev,
            fired(cfg.key_bindings@, ev.bindings@, cfg.key_bindings@.len() as int, *ev, has_mod, false),
            old(actions)@,
            final(actions)@,
        ),
{
    apply_bindings(state, cfg, ev, has_mod, false, actions);
}

/// Answers a key press; see `key_pressed`.
pub fn key_press(state: &mut State, cfg: &Config, ev: &KeyPress, actions: &mut Vec<Action>)
    requires
        sound(*old(state), *cfg),
        ev.bindings@.len() == cfg.key_bindings@.len(),
        forall|i: int| 0 <= i < ev.ws_keys@.len() ==> ev.ws_keys@[i] >= 10,
    ensures
        sound(*final(state), *cfg),
        key_pressed(*old(state), *final(state), *cfg, *ev, old(actions)@, final(actions)@),
{
    broadcast use vstd::std_specs::hash::group_hash_axioms;

    let has_mod = ev.state & !cfg.mod_key != 0;
    let mod_is_pressed = ev.state & cfg.mod_key == cfg.mod_key;
    if !mod_is_pressed && !ev.is_xf86 {
        return;
    }
    let mon = state.monitors.get(&state.current_monitor).unwrap();
    match mon.get_client(state.focus_w) {
        Some(_) => managed_client(state, cfg, ev, has_mod, actions),
        None => {
            if ev.win == state.root {
                root(state, cfg, ev, has_mod, actions);
            }
        },
    }
}

} // verus!

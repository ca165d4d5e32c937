//! Operations on the whole state: monitors, workspaces and windows.
use vstd::prelude::*;
use crate::config::Config;
use crate::geometry::{Geometry, MonitorId, Position, Rect, Window};
use crate::layout::{spec_maximize, spec_monocle, LayoutTag};
use crate::models::monitor::{apply_rects, clients_replaced, Monitor};
use crate::models::client_map::{has_key, index_of, insert_entry, sort_by_toc, swapped, wrappers, Entry};
use crate::layout::{spec_place_window, spec_reorder};
use crate::models::monitor::same_but_clients;
use crate::models::workspace::Workspace;
use crate::models::screen::Screen;
use crate::models::windowwrapper::WindowWrapper;
use crate::models::WindowState;
use crate::state::State;
use crate::action::Action;

verus! {

/// The top left corner of the window lies on the screen (right and bottom
/// edges excluded).
pub open spec fn spec_window_inside_screen(g: Geometry, s: Screen) -> bool {
    &&& s.x <= g.x < s.x + s.width
    &&& s.y <= g.y < s.y + s.height
}

pub fn window_inside_screen(w_geom: &Geometry, screen: &Screen) -> (r: bool)
    requires
        screen.in_range(),
    ensures
        r == spec_window_inside_screen(*w_geom, *screen),
{
    let inside_width = w_geom.x >= screen.x && w_geom.x < screen.x + screen.width;
    let inside_height = w_geom.y >= screen.y && w_geom.y < screen.y + screen.height;
    inside_width && inside_height
}

/// The point lies on the screen, edges included.
pub open spec fn spec_point_is_inside(s: Screen, x: i32, y: i32) -> bool {
    &&& s.y <= y <= s.y + s.height
    &&& s.x <= x <= s.x + s.width
}

pub fn point_is_inside(_state: &State, screen: &Screen, x: i32, y: i32) -> (r: bool)
    requires
        screen.in_range(),
    ensures
        r == spec_point_is_inside(*screen, x, y),
{
    let inside_height = y >= screen.y && y <= screen.y + screen.height;
    let inside_width = x >= screen.x && x <= screen.x + screen.width;
    inside_height && inside_width
}

/// The pointer, at `pointer`, lies on the screen.
pub fn pointer_is_inside(state: &State, screen: &Screen, pointer: Position) -> (r: bool)
    requires
        screen.in_range(),
    ensures
        r == spec_point_is_inside(*screen, pointer.x, pointer.y),
{
    point_is_inside(state, screen, pointer.x, pointer.y)
}

/// A monitor whose screen holds the point; the current monitor when none
/// does.
pub fn get_monitor_by_point(state: &State, cfg: &Config, x: i32, y: i32) -> (r: MonitorId)
    requires
        state.wf(),
        state.inputs_ok(*cfg),
    ensures
        state.mons().contains_key(r) && spec_point_is_inside(state.mons()[r].screen, x, y)
            || (r == state.current_monitor && forall|id: MonitorId| #[trigger] state.mons().contains_key(id)
            ==> !spec_point_is_inside(state.mons()[id].screen, x, y)),
{
    broadcast use vstd::std_specs::hash::group_hash_axioms;

    let ids = state.monitor_ids();
    let mut i: usize = 0;
    while i < ids.len()
        invariant
            i <= ids@.len(),
            state.wf(),
            state.inputs_ok(*cfg),
            ids@.to_set() == state.mons().dom(),
            forall|j: int| 0 <= j < i ==> !spec_point_is_inside(state.mons()[#[trigger] ids@[j]].screen, x, y),
        decreases ids@.len() - i,
    {
        let id = ids[i];
        proof {
            assert(ids@.to_set().contains(id));
            assert(state.mons().contains_key(id));
        }
        let mon = state.monitors.get(&id).unwrap();
        if point_is_inside(state, &mon.screen, x, y) {
            return id;
        }
        i = i + 1;
    }
    proof {
        assert forall|id: MonitorId| #[trigger] state.mons().contains_key(id) implies !spec_point_is_inside(state.mons()[id].screen, x, y) by {
            assert(ids@.to_set().contains(id));
            let j = choose|j: int| 0 <= j < ids@.len() && ids@[j] == id;
            assert(!spec_point_is_inside(state.mons()[ids@[j]].screen, x, y));
        }
    }
    state.current_monitor
}

/// A monitor whose screen holds the pointer, at `pointer`; the current
/// monitor when none does.
pub fn get_monitor_by_mouse(state: &State, cfg: &Config, pointer: Position) -> (r: MonitorId)
    requires
        state.wf(),
        state.inputs_ok(*cfg),
    ensures
        state.mons().contains_key(r) && spec_point_is_inside(state.mons()[r].screen, pointer.x, pointer.y)
            || (r == state.current_monitor && forall|id: MonitorId| #[trigger] state.mons().contains_key(id)
            ==> !spec_point_is_inside(state.mons()[id].screen, pointer.x, pointer.y)),
{
    get_monitor_by_point(state, cfg, pointer.x, pointer.y)
}

/// The monitors that have workspace `ws`.
pub open spec fn mons_with_ws(state: State, ws: u32) -> Set<MonitorId> {
    state.mons().dom().filter(|id: MonitorId| state.mons()[id].wss().contains_key(ws))
}

/// The monitors that hold window `w`.
pub open spec fn mons_with_window(state: State, w: Window) -> Set<MonitorId> {
    state.mons().dom().filter(|id: MonitorId| state.mons()[id].holds(w))
}

/// `Some(id)` when `id` is the only element of `s`, else `None`.
pub open spec fn the_only(s: Set<MonitorId>, r: Option<MonitorId>) -> bool {
    match r {
        Some(id) => s.contains(id) && forall|j: MonitorId| s.contains(j) ==> j == id,
        None => forall|id: MonitorId| s.contains(id) ==> exists|j: MonitorId| s.contains(j) && j != id,
    }
}

/// The monitor that has workspace `ws`, when exactly one has it.
pub fn get_mon_by_ws(state: &State, ws: u32) -> (r: Option<MonitorId>)
    requires
        state.wf(),
    ensures
        the_only(mons_with_ws(*state, ws), r),
{
    broadcast use vstd::std_specs::hash::group_hash_axioms;

    let ids = state.monitor_ids();
    let mut found: Vec<MonitorId> = Vec::new();
    let mut i: usize = 0;
    while i < ids.len()
        invariant
            i <= ids@.len(),
            state.wf(),
            ids@.to_set() == state.mons().dom(),
            ids@.no_duplicates(),
            found@.no_duplicates(),
            forall|x: MonitorId| found@.contains(x) <==> exists|j: int| 0 <= j < i && ids@[j] == x && state.mons()[x].wss().contains_key(ws),
        decreases ids@.len() - i,
    {
        let id = ids[i];
        proof {
            assert(ids@.to_set().contains(id));
            assert(state.mons().contains_key(id));
        }
        let mon = state.monitors.get(&id).unwrap();
        let ghost before = found@;
        if mon.contains_ws(ws) {
            proof {
                assert(!before.contains(id)) by {
                    if before.contains(id) {
                        let j = choose|j: int| 0 <= j < i && ids@[j] == id && state.mons()[id].wss().contains_key(ws);
                        assert(ids@[j] == ids@[i as int]);
                    }
                }
            }
            found.push(id);
        }
        proof {
            assert forall|x: MonitorId| found@.contains(x) <==> exists|j: int| 0 <= j < i + 1 && ids@[j] == x && state.mons()[x].wss().contains_key(ws) by {
                if found@.contains(x) && x != id {
                    assert(before.contains(x)) by {
                        let p = choose|p: int| 0 <= p < found@.len() && found@[p] == x;
                        if p == before.len() {
                            assert(found@[p] == id);
                        } else {
                            assert(before[p] == x);
                        }
                    }
                }
                if x == id && state.mons()[x].wss().contains_key(ws) {
                    assert(found@[found@.len() - 1] == id);
                }
                if exists|j: int| 0 <= j < i + 1 && ids@[j] == x && state.mons()[x].wss().contains_key(ws) {
                    let j = choose|j: int| 0 <= j < i + 1 && ids@[j] == x && state.mons()[x].wss().contains_key(ws);
                    if j < i {
                        assert(exists|jj: int| 0 <= jj < i && ids@[jj] == x && state.mons()[x].wss().contains_key(ws));
                        assert(before.contains(x));
                        let p = choose|p: int| 0 <= p < before.len() && before[p] == x;
                        assert(found@[p] == x);
                    }
                }
            }
        }
        i = i + 1;
    }
    proof {
        let s = mons_with_ws(*state, ws);
        assert forall|x: MonitorId| s.contains(x) <==> found@.contains(x) by {
            if s.contains(x) {
                assert(ids@.to_set().contains(x));
                let j = choose|j: int| 0 <= j < ids@.len() && ids@[j] == x;
            }
        }
    }
    if found.len() == 1 {
        proof {
            let s = mons_with_ws(*state, ws);
            assert forall|j: MonitorId| s.contains(j) implies j == found@[0] by {
                assert(found@.contains(j));
            }
            assert(found@.contains(found@[0]));
        }
        Some(found[0])
    } else {
        proof {
            let s = mons_with_ws(*state, ws);
            assert forall|id: MonitorId| s.contains(id) implies exists|j: MonitorId| s.contains(j) && j != id by {
                assert(found@.contains(id));
                assert(found@.len() >= 2);
                assert(found@.contains(found@[0]) && found@.contains(found@[1]));
                assert(found@[0] != found@[1]);
                if found@[0] != id {
                    assert(s.contains(found@[0]));
                } else {
                    assert(s.contains(found@[1]));
                }
            }
        }
        None
    }
}

/// The monitor that holds window `w`, when exactly one holds it.
pub fn get_mon_by_window(state: &State, w: Window) -> (r: Option<MonitorId>)
    requires
        state.wf(),
    ensures
        the_only(mons_with_window(*state, w), r),
{
    broadcast use vstd::std_specs::hash::group_hash_axioms;

    let ids = state.monitor_ids();
    let mut found: Vec<MonitorId> = Vec::new();
    let mut i: usize = 0;
    while i < ids.len()
        invariant
            i <= ids@.len(),
            state.wf(),
            ids@.to_set() == state.mons().dom(),
            ids@.no_duplicates(),
            found@.no_duplicates(),
            forall|x: MonitorId| found@.contains(x) <==> exists|j: int| 0 <= j < i && ids@[j] == x && state.mons()[x].holds(w),
        decreases ids@.len() - i,
    {
        let id = ids[i];
        proof {
            assert(ids@.to_set().contains(id));
            assert(state.mons().contains_key(id));
        }
        let mon = state.monitors.get(&id).unwrap();
        let ghost before = found@;
        if mon.contains_window(w) {
            proof {
                assert(!before.contains(id)) by {
                    if before.contains(id) {
                        let j = choose|j: int| 0 <= j < i && ids@[j] == id && state.mons()[id].holds(w);
                        assert(ids@[j] == ids@[i as int]);
                    }
                }
            }
            found.push(id);
        }
        proof {
            assert forall|x: MonitorId| found@.contains(x) <==> exists|j: int| 0 <= j < i + 1 && ids@[j] == x && state.mons()[x].holds(w) by {
                if found@.contains(x) && x != id {
                    assert(before.contains(x)) by {
                        let p = choose|p: int| 0 <= p < found@.len() && found@[p] == x;
                        if p == before.len() {
                            assert(found@[p] == id);
                        } else {
                            assert(before[p] == x);
                        }
                    }
                }
                if x == id && state.mons()[x].holds(w) {
                    assert(found@[found@.len() - 1] == id);
                }
                if exists|j: int| 0 <= j < i + 1 && ids@[j] == x && state.mons()[x].holds(w) {
                    let j = choose|j: int| 0 <= j < i + 1 && ids@[j] == x && state.mons()[x].holds(w);
                    if j < i {
                        assert(exists|jj: int| 0 <= jj < i && ids@[jj] == x && state.mons()[x].holds(w));
                        assert(before.contains(x));
                        let p = choose|p: int| 0 <= p < before.len() && before[p] == x;
                        assert(found@[p] == x);
                    }
                }
            }
        }
        i = i + 1;
    }
    proof {
        let s = mons_with_window(*state, w);
        assert forall|x: MonitorId| s.contains(x) <==> found@.contains(x) by {
            if s.contains(x) {
                assert(ids@.to_set().contains(x));
                let j = choose|j: int| 0 <= j < ids@.len() && ids@[j] == x;
            }
        }
    }
    if found.len() == 1 {
        proof {
            let s = mons_with_window(*state, w);
            assert forall|j: MonitorId| s.contains(j) implies j == found@[0] by {
                assert(found@.contains(j));
            }
            assert(found@.contains(found@[0]));
        }
        Some(found[0])
    } else {
        proof {
            let s = mons_with_window(*state, w);
            assert forall|id: MonitorId| s.contains(id) implies exists|j: MonitorId| s.contains(j) && j != id by {
                assert(found@.contains(id));
                assert(found@.len() >= 2);
                assert(found@.contains(found@[0]) && found@.contains(found@[1]));
                assert(found@[0] != found@[1]);
                if found@[0] != id {
                    assert(s.contains(found@[0]));
                } else {
                    assert(s.contains(found@[1]));
                }
            }
        }
        None
    }
}

/// What `toggle_maximize` makes of `ww`: a maximized window goes back to
/// the rectangle and state it had; any other window is maximized, and its
/// rectangle and state are remembered.  In a tiling layout an empty
/// workspace leaves the window as it is.
pub open spec fn spec_toggle_maximize(cfg: Config, mon: Monitor, ww: WindowWrapper) -> WindowWrapper {
    toggled_maximize(cfg, mon.cur().current_tag, mon.cur().entries().len() as int, mon.screen, mon.dock_area, ww)
}

/// `spec_toggle_maximize` on a monitor whose workspace shown has the layout
/// `tag` and `n` windows.
pub open spec fn toggled_maximize(cfg: Config, tag: LayoutTag, n: int, screen: Screen, dock_area: crate::models::dockarea::DockArea, ww: WindowWrapper) -> WindowWrapper {
    if tag != LayoutTag::Floating && n == 0 {
        ww
    } else if ww.current_state == WindowState::Maximized {
        WindowWrapper {
            window_rect: Rect::mk(ww.restore_position, ww.restore_size),
            previous_state: ww.current_state,
            current_state: ww.previous_state,
            ..ww
        }
    } else {
        let (pos, size) = spec_maximize(tag, cfg, screen, dock_area);
        WindowWrapper {
            restore_position: ww.window_rect.pos(),
            restore_size: ww.window_rect.sz(),
            window_rect: Rect::mk(pos, size),
            previous_state: ww.current_state,
            current_state: WindowState::Maximized,
            ..ww
        }
    }
}

pub fn toggle_maximize(cfg: &Config, mon: &Monitor, ww: WindowWrapper) -> (r: WindowWrapper)
    requires
        mon.wf(),
        mon.has_current(),
        mon.inputs_ok(*cfg),
    ensures
        r == spec_toggle_maximize(*cfg, *mon, ww),
{
    if mon.get_current_layout() != Some(LayoutTag::Floating) {
        if mon.get_current_ws().unwrap().len() == 0 {
            return ww;
        }
    }
    match ww.current_state {
        WindowState::Maximized => WindowWrapper {
            window_rect: Rect::new(ww.restore_position, ww.restore_size),
            previous_state: ww.current_state,
            current_state: ww.previous_state,
            ..ww
        },
        _ => {
            let (pos, size) = mon.maximize(cfg, ww.window(), &ww);
            WindowWrapper {
                restore_position: ww.get_position(),
                restore_size: ww.get_size(),
                window_rect: Rect::new(pos, size),
                previous_state: ww.current_state,
                current_state: WindowState::Maximized,
                ..ww
            }
        },
    }
}

/// What `toggle_monocle` makes of `ww`: a window in monocle goes back to
/// the rectangle and state it had; any other window takes the whole
/// screen, and its rectangle and state are remembered.
pub open spec fn spec_toggle_monocle(cfg: Config, mon: Monitor, ww: WindowWrapper) -> WindowWrapper {
    toggled_monocle(cfg, mon.cur().current_tag, mon.screen, mon.dock_area, ww)
}

/// `spec_toggle_monocle` on a monitor whose workspace shown has the layout
/// `tag`.
pub open spec fn toggled_monocle(cfg: Config, tag: LayoutTag, screen: Screen, dock_area: crate::models::dockarea::DockArea, ww: WindowWrapper) -> WindowWrapper {
    if ww.current_state == WindowState::Monocle {
        WindowWrapper {
            window_rect: Rect::mk(ww.restore_position, ww.restore_size),
            previous_state: ww.current_state,
            current_state: ww.previous_state,
            ..ww
        }
    } else {
        let (pos, size) = spec_monocle(tag, cfg, screen, dock_area);
        WindowWrapper {
            restore_position: ww.window_rect.pos(),
            restore_size: ww.window_rect.sz(),
            window_rect: Rect::mk(pos, size),
            previous_state: ww.current_state,
            current_state: WindowState::Monocle,
            ..ww
        }
    }
}

pub fn toggle_monocle(cfg: &Config, mon: &Monitor, ww: WindowWrapper) -> (r: WindowWrapper)
    requires
        mon.wf(),
        mon.has_current(),
        mon.inputs_ok(*cfg),
    ensures
        r == spec_toggle_monocle(*cfg, *mon, ww),
{
    match ww.current_state {
        WindowState::Monocle => WindowWrapper {
            window_rect: Rect::new(ww.restore_position, ww.restore_size),
            previous_state: ww.current_state,
            current_state: ww.previous_state,
            ..ww
        },
        _ => {
            let (pos, size) = mon.monocle(cfg, ww.window(), &ww);
            WindowWrapper {
                restore_position: ww.get_position(),
                restore_size: ww.get_size(),
                window_rect: Rect::new(pos, size),
                previous_state: ww.current_state,
                current_state: WindowState::Monocle,
                ..ww
            }
        },
    }
}

} // verus!

verus! {

/// The monitor that alone has workspace `ws`, if one alone has it.
pub open spec fn unique_mon_with_ws(state: State, ws: u32) -> Option<MonitorId> {
    let s = mons_with_ws(state, ws);
    if exists|id: MonitorId| s.contains(id) && forall|j: MonitorId| s.contains(j) ==> j == id {
        Some(choose|id: MonitorId| s.contains(id) && forall|j: MonitorId| s.contains(j) ==> j == id)
    } else {
        None
    }
}

proof fn lemma_the_only_unique(state: State, ws: u32, r: Option<MonitorId>)
    requires
        the_only(mons_with_ws(state, ws), r),
    ensures
        r == unique_mon_with_ws(state, ws),
{
    let s = mons_with_ws(state, ws);
    match r {
        Some(id) => {
            let c = choose|c: MonitorId| s.contains(c) && forall|j: MonitorId| s.contains(j) ==> j == c;
            assert(c == id);
        },
        None => {
            if exists|id: MonitorId| s.contains(id) && forall|j: MonitorId| s.contains(j) ==> j == id {
                let id = choose|id: MonitorId| s.contains(id) && forall|j: MonitorId| s.contains(j) ==> j == id;
                let j = choose|j: MonitorId| s.contains(j) && j != id;
                assert(false);
            }
        },
    }
}

/// The monitor on which workspace `ws` is to be shown: the one that alone
/// has it, else the current monitor.
pub open spec fn target_monitor(state: State, ws: u32) -> MonitorId {
    match unique_mon_with_ws(state, ws) {
        Some(id) => id,
        None => state.current_monitor,
    }
}

/// The fields of the state but the monitors are kept.
pub open spec fn same_but_monitors(a: State, b: State) -> bool {
    &&& b.root == a.root
    &&& b.mouse_follow == a.mouse_follow
    &&& b.hide_space == a.hide_space
    &&& b.latest_cursor_pos == a.latest_cursor_pos
    &&& b.ignore_enter_leave == a.ignore_enter_leave
    &&& b.drag_start_pos == a.drag_start_pos
    &&& b.drag_start_frame_pos == a.drag_start_frame_pos
    &&& b.drag_start_frame_size == a.drag_start_frame_size
}

/// `n` is `m` with `mouse_follow` set and nothing else changed.
pub open spec fn follows_mouse(m: Monitor, n: Monitor) -> bool {
    &&& n.id == m.id
    &&& n.screen == m.screen
    &&& n.dock_area == m.dock_area
    &&& n.current_ws == m.current_ws
    &&& n.wss() == m.wss()
    &&& n.mouse_follow
}

/// An empty workspace `ws` with the focus on `root` and the configured
/// layout.
pub open spec fn fresh_workspace(w: crate::models::workspace::Workspace, ws: u32, root: Window, cfg: Config) -> bool {
    &&& w.wf()
    &&& w.tag == ws
    &&& w.focus_w == root
    &&& w.current_tag == cfg.default_layout
    &&& w.entries().len() == 0
}

/// What switching to workspace `ws` makes of monitor `m` when `m` does not
/// show it: `ws` is added when `m` lacks it, the workspace shown is dropped
/// when it is empty, and `ws` is shown.
pub open spec fn switched_monitor(m: Monitor, n: Monitor, ws: u32, root: Window, cfg: Config) -> bool {
    let dropped = m.has_current() && m.cur().entries().len() == 0;
    &&& n.id == m.id
    &&& n.screen == m.screen
    &&& n.dock_area == m.dock_area
    &&& n.current_ws == ws
    &&& n.mouse_follow
    &&& n.wss().dom() == (if dropped { m.wss().dom().insert(ws).remove(m.current_ws) } else { m.wss().dom().insert(ws) })
    &&& forall|k: u32| #[trigger] n.wss().contains_key(k) && k != ws ==> n.wss()[k] == m.wss()[k]
    &&& m.wss().contains_key(ws) ==> n.wss()[ws] == m.wss()[ws]
    &&& !m.wss().contains_key(ws) ==> fresh_workspace(n.wss()[ws], ws, root, cfg)
}

/// What showing workspace `ws` does; see `set_current_ws`.
pub open spec fn switched_ws(old: State, new: State, cfg: Config, ws: u32, r: Option<()>) -> bool {
    &&& same_but_monitors(old, new)
    &&& !old.has_current() ==> r is None && new == old
    &&& old.has_current() ==> {
        let t = target_monitor(old, ws);
        let m = old.mons()[t];
        let n = new.mons()[t];
        &&& new.mons().dom() == old.mons().dom()
        &&& forall|k: MonitorId| #[trigger] new.mons().contains_key(k) && k != t ==> new.mons()[k] == old.mons()[k]
        &&& if ws == m.current_ws {
            &&& follows_mouse(m, n)
            &&& if unique_mon_with_ws(old, ws) is None {
                &&& r is None
                &&& new.focus_w == old.focus_w
                &&& new.current_monitor == old.current_monitor
            } else if !m.has_current() || m.cur().entries().len() == 0 {
                &&& r is Some
                &&& new.focus_w == old.focus_w
                &&& new.current_monitor == old.current_monitor
            } else {
                &&& r is Some
                &&& new.focus_w == m.cur().entries().last().0
                &&& new.current_monitor == t
            }
        } else {
            &&& new.current_monitor == t
            &&& new.focus_w == old.focus_w
            &&& if m.wss().contains_key(m.current_ws) || m.current_ws == ws {
                &&& r is Some
                &&& switched_monitor(m, n, ws, old.root, cfg)
            } else {
                &&& r is None
                &&& n.id == m.id && n.screen == m.screen && n.dock_area == m.dock_area
                &&& n.current_ws == m.current_ws && n.mouse_follow == m.mouse_follow
                &&& n.wss().dom() == m.wss().dom().insert(ws)
                &&& forall|k: u32| #[trigger] n.wss().contains_key(k) && k != ws ==> n.wss()[k] == m.wss()[k]
                &&& m.wss().contains_key(ws) ==> n.wss()[ws] == m.wss()[ws]
                &&& !m.wss().contains_key(ws) ==> fresh_workspace(n.wss()[ws], ws, old.root, cfg)
            }
        }
    }
}

/// Shows workspace `ws`.
///
/// When a monitor shows `ws` already, its pointer is to follow, and the
/// focus moves to the newest window of `ws` on that monitor, which becomes
/// the current one.  Else `ws` is shown on the monitor that alone has it,
/// or on the current monitor (where it is created when missing), that
/// monitor becomes the current one, and the workspace it showed is dropped
/// when empty.  `None` when there is no current monitor, when a shown `ws`
/// is on more than one monitor, or when the chosen monitor shows no
/// workspace.
pub fn set_current_ws(state: &mut State, cfg: &Config, ws: u32) -> (r: Option<()>)
    requires
        old(state).wf(),
    ensures
        final(state).wf(),
        sound(*old(state), *cfg) ==> sound(*final(state), *cfg),
        switched_ws(*old(state), *final(state), *cfg, ws, r),
{
    broadcast use vstd::std_specs::hash::group_hash_axioms;

    if !state.monitors.contains_key(&state.current_monitor) {
        return None;
    }
    let found = get_mon_by_ws(state, ws);
    proof {
        lemma_the_only_unique(*old(state), ws, found);
    }
    let t = match found {
        Some(id) => id,
        None => state.current_monitor,
    };
    proof {
        if found is Some {
            let s = mons_with_ws(*old(state), ws);
            assert(s.contains(t));
        }
    }
    let mut mon = state.take_monitor(t).unwrap();
    let ghost m = mon;
    if ws == mon.current_ws {
        mon.mouse_follow = true;
        if found.is_none() {
            state.put_monitor(mon);
            proof {
                assert(final(state).mons().dom() =~= old(state).mons().dom());
            }
            return None;
        }
        match mon.get_newest() {
            Some((win, _)) => {
                state.focus_w = win;
                state.current_monitor = mon.id;
            },
            None => {},
        }
        state.put_monitor(mon);
        proof {
            assert(final(state).mons().dom() =~= old(state).mons().dom());
        }
        return Some(());
    }
    if !mon.contains_ws(ws) {
        let fresh = Workspace::with_layout(ws, state.root, cfg.default_layout);
        mon.add_ws(fresh);
    }
    state.current_monitor = mon.id;
    let shown = mon.current_ws;
    let empty = match mon.get_current_ws() {
        Some(w) => w.len() == 0,
        None => {
            state.put_monitor(mon);
            proof {
                assert(final(state).mons().dom() =~= old(state).mons().dom());
                let n = final(state).mons()[t];
                assert(n.wss().dom() =~= m.wss().dom().insert(ws));
            }
            return None;
        },
    };
    if empty {
        let _ = mon.remove_ws(shown);
    }
    mon.current_ws = ws;
    mon.mouse_follow = true;
    state.put_monitor(mon);
    proof {
        assert(final(state).mons().dom() =~= old(state).mons().dom());
        let n = final(state).mons()[t];
        if empty {
            assert(n.wss().dom() =~= m.wss().dom().insert(ws).remove(m.current_ws));
        } else {
            assert(n.wss().dom() =~= m.wss().dom().insert(ws));
        }
    }
    Some(())
}

} // verus!

verus! {

/// Every monitor shows a workspace that it has.
pub open spec fn all_shown(state: State) -> bool {
    forall|id: MonitorId| #[trigger] state.mons().contains_key(id) ==> state.mons()[id].has_current()
}

/// The positions at which a drag started lie in the computable range.
pub open spec fn drag_in_range(state: State) -> bool {
    &&& crate::geometry::in_range(state.drag_start_pos.0 as int)
    &&& crate::geometry::in_range(state.drag_start_pos.1 as int)
    &&& crate::geometry::in_range(state.drag_start_frame_pos.0 as int)
    &&& crate::geometry::in_range(state.drag_start_frame_pos.1 as int)
}

/// All that `sound` asks but that the current monitor exists.
pub open spec fn sound_apart_from_current(state: State, cfg: Config) -> bool {
    &&& drag_in_range(state)
    &&& state.wf()
    &&& state.inputs_ok(cfg)
    &&& all_shown(state)
}

/// What every state of the window manager keeps: the drag started in the
/// computable range; its monitors are well formed, lie in the computable
/// range and each shows a workspace of its own; and the current monitor
/// exists.
pub open spec fn sound(state: State, cfg: Config) -> bool {
    &&& drag_in_range(state)
    &&& state.wf()
    &&& state.inputs_ok(cfg)
    &&& all_shown(state)
    &&& state.has_current()
}

/// The state that a window takes when the current layout arranges the
/// workspace: free when floating, maximized when alone, else tiled.
pub open spec fn arranged_state(tag: LayoutTag, n: int) -> WindowState {
    if tag == LayoutTag::Floating {
        WindowState::Free
    } else if n == 1 {
        WindowState::Maximized
    } else {
        WindowState::Tiled
    }
}

/// `n` is `m` whose shown workspace has the clients `entries`.
pub open spec fn shown_clients_replaced(m: Monitor, n: Monitor, entries: Seq<Entry>) -> bool {
    &&& n.id == m.id
    &&& n.screen == m.screen
    &&& n.dock_area == m.dock_area
    &&& n.current_ws == m.current_ws
    &&& n.mouse_follow == m.mouse_follow
    &&& clients_replaced(m.wss(), n.wss(), m.current_ws, entries)
}

/// What arranging the current workspace anew does; see `reorder`.
pub open spec fn reordered(old: State, new: State, cfg: Config, r: Option<()>) -> bool {
    &&& same_but_monitors(old, new)
    &&& new.focus_w == old.focus_w
    &&& new.current_monitor == old.current_monitor
    &&& !(old.has_current() && old.cur_mon().has_current() && old.focus_w != old.root)
        ==> r is None && new.mons() == old.mons()
    &&& old.has_current() && old.cur_mon().has_current() && old.focus_w != old.root ==> {
        let m = old.cur_mon();
        let ws = m.cur();
        let rects = spec_reorder(ws.current_tag, cfg, m.screen, m.dock_area, ws.windows());
        &&& r is Some
        &&& new.mons().dom() == old.mons().dom()
        &&& forall|k: MonitorId| #[trigger] new.mons().contains_key(k) && k != old.current_monitor ==> new.mons()[k] == old.mons()[k]
        &&& shown_clients_replaced(
            m,
            new.cur_mon(),
            apply_rects(ws.entries(), rects, arranged_state(ws.current_tag, rects.len() as int)),
        )
    }
}

/// The layout of the current monitor's workspace arranges its windows
/// anew, unless the focus is on the root window.
pub fn reorder(state: &mut State, cfg: &Config) -> (r: Option<()>)
    requires
        old(state).wf(),
        old(state).inputs_ok(*cfg),
        old(state).has_current() && old(state).cur_mon().has_current() && old(state).focus_w != old(
            state,
        ).root && old(state).cur_mon().cur().current_tag == LayoutTag::Floating ==> old(
            state,
        ).cur_mon().cur().entries().len() > 0,
    ensures
        final(state).wf(),
        final(state).inputs_ok(*cfg),
        all_shown(*old(state)) ==> all_shown(*final(state)),
        reordered(*old(state), *final(state), *cfg, r),
{
    broadcast use vstd::std_specs::hash::group_hash_axioms;

    if !state.monitors.contains_key(&state.current_monitor) {
        return None;
    }
    let cur = state.current_monitor;
    let mut mon = state.take_monitor(cur).unwrap();
    let ghost m = mon;
    if !mon.contains_ws(mon.current_ws) || state.focus_w == state.root {
        state.put_monitor(mon);
        proof {
            assert(final(state).mons() =~= old(state).mons());
        }
        return None;
    }
    proof {
        assert(old(state).mons().contains_key(cur));
        assert(m.wss().contains_key(m.current_ws));
        assert(m.inputs_ok(*cfg));
    }
    let windows = mon.current_windows();
    let rects = mon.reorder(cfg, state.focus_w, windows.as_slice());
    let layout = mon.get_current_layout().unwrap();
    let cs = if layout == LayoutTag::Floating {
        WindowState::Free
    } else if rects.len() == 1 {
        WindowState::Maximized
    } else {
        WindowState::Tiled
    };
    mon.apply_rects(&rects, cs);
    state.put_monitor(mon);
    proof {
        assert(final(state).mons().dom() =~= old(state).mons().dom());
        assert forall|id: MonitorId| #[trigger] final(state).mons().contains_key(id) implies final(state).mons()[id].inputs_ok(*cfg) by {
            assert(old(state).mons().contains_key(id));
        }
    }
    Some(())
}

} // verus!

verus! {

/// The clients `s` when window `win` of the new layout gets `rect`: it
/// keeps its other fields, becomes free before it takes the state `cs`, and
/// takes `rect` as the rectangle to restore.  For the moved window `w` the
/// newest window and `w` trade their times, so that `w` becomes the newest
/// and the former newest takes `w`'s old time `w_toc`.
pub open spec fn moved_step(s: Seq<Entry>, win: Window, rect: Rect, w: Window, w_toc: u64, cs: WindowState) -> Seq<Entry> {
    let newest = s.last();
    let old_win = s[index_of(s, win)].1;
    let s1 = swapped(
        s,
        win,
        WindowWrapper {
            restore_position: rect.pos(),
            window_rect: rect,
            previous_state: WindowState::Free,
            current_state: cs,
            toc: if win == w { newest.1.toc } else { old_win.toc },
            ..old_win
        },
    );
    if win == w {
        let nw = s1[index_of(s1, newest.0)].1;
        swapped(s1, newest.0, WindowWrapper { current_state: cs, toc: w_toc, ..nw })
    } else {
        s1
    }
}

/// The clients `s` after every window named in `rects` took its place, in
/// the order of `rects`.
pub open spec fn place_moved(s: Seq<Entry>, rects: Seq<(Window, Rect)>, w: Window, w_toc: u64, cs: WindowState) -> Seq<Entry>
    decreases rects.len(),
{
    if rects.len() == 0 {
        s
    } else {
        let s1 = place_moved(s, rects.drop_last(), w, w_toc, cs);
        moved_step(s1, rects.last().0, rects.last().1, w, w_toc, cs)
    }
}

/// The state in which a window moved to another workspace is placed: when
/// the layout puts it alone and does not float, maximized, else free.
pub open spec fn moved_state(tag: LayoutTag, n: int) -> WindowState {
    if n == 1 && tag != LayoutTag::Floating {
        WindowState::Maximized
    } else {
        WindowState::Free
    }
}


fn place_moved_window(ws: &mut Workspace, rects: &Vec<(Window, Rect)>, w: Window, w_toc: u64, cs: WindowState)
    requires
        old(ws).wf(),
        old(ws).entries().len() > 0,
    ensures
        final(ws).wf(),
        final(ws).tag == old(ws).tag,
        final(ws).focus_w == old(ws).focus_w,
        final(ws).current_tag == old(ws).current_tag,
        final(ws).entries() == place_moved(old(ws).entries(), rects@, w, w_toc, cs),
        final(ws).entries().len() == old(ws).entries().len(),
{
    let mut i: usize = 0;
    while i < rects.len()
        invariant
            i <= rects@.len(),
            ws.wf(),
            ws.tag == old(ws).tag,
            ws.focus_w == old(ws).focus_w,
            ws.current_tag == old(ws).current_tag,
            ws.entries().len() == old(ws).entries().len(),
            ws.entries().len() > 0,
            ws.entries() == place_moved(old(ws).entries(), rects@.take(i as int), w, w_toc, cs),
        decreases rects@.len() - i,
    {
        let (win, rect) = rects[i];
        proof {
            assert(rects@.take(i as int + 1).drop_last() =~= rects@.take(i as int));
        }
        let ghost s = ws.entries();
        let (new_win, new_ww) = ws.get_newest().unwrap();
        proof {
            assert(has_key(s, new_win)) by {
                assert(s[s.len() - 1].0 == new_win);
            }
            assert(ws.has_window(new_win));
        }
        match ws.get_client(win) {
            Some(cur) => {
                let nw = WindowWrapper {
                    restore_position: rect.get_position(),
                    window_rect: rect,
                    previous_state: WindowState::Free,
                    current_state: cs,
                    toc: if win == w { new_ww.toc } else { cur.toc },
                    ..cur
                };
                let _ = ws.replace_window(win, nw);
            },
            None => {},
        }
        if win == w {
            let nw2 = ws.get_client(new_win).unwrap();
            let _ = ws.replace_window(new_win, WindowWrapper { current_state: cs, toc: w_toc, ..nw2 });
        }
        i = i + 1;
    }
    proof {
        assert(rects@.take(rects@.len() as int) =~= rects@);
    }
}

/// The clients of a new workspace after each window named in `rects` was
/// filed with its rectangle, as a free window before taking the state `cs`,
/// from the wrapper `ww`.
pub open spec fn added_entries(rects: Seq<(Window, Rect)>, ww: WindowWrapper, cs: WindowState) -> Seq<Entry>
    decreases rects.len(),
{
    if rects.len() == 0 {
        Seq::empty()
    } else {
        let r = rects.last();
        sort_by_toc(
            insert_entry(
                added_entries(rects.drop_last(), ww, cs),
                r.0,
                WindowWrapper {
                    restore_position: r.1.pos(),
                    previous_state: WindowState::Free,
                    current_state: cs,
                    window_rect: r.1,
                    ..ww
                },
            ),
        )
    }
}

/// `new` is `old` with the clients of workspace `t1` replaced by `e1` and
/// those of `t2` by `e2`.
pub open spec fn two_replaced(old: Map<u32, Workspace>, new: Map<u32, Workspace>, t1: u32, e1: Seq<Entry>, t2: u32, e2: Seq<Entry>) -> bool {
    &&& new.dom() == old.dom()
    &&& forall|k: u32| #[trigger] new.contains_key(k) && k != t1 && k != t2 ==> new[k] == old[k]
    &&& new.contains_key(t1) ==> same_but_clients(old[t1], new[t1]) && new[t1].entries() == e1
    &&& new.contains_key(t2) ==> same_but_clients(old[t2], new[t2]) && new[t2].entries() == e2
}

/// `n` is monitor `m` with other workspaces but the same screen, dock,
/// shown workspace and pointer following.
pub open spec fn same_monitor_frame(m: Monitor, n: Monitor) -> bool {
    &&& n.id == m.id
    &&& n.screen == m.screen
    &&& n.dock_area == m.dock_area
    &&& n.current_ws == m.current_ws
    &&& n.mouse_follow == m.mouse_follow
}

/// What moving window `w` of the current workspace to workspace `ws` does
/// to the monitors, once `w` was found there.
pub open spec fn moved_to_ws(old: State, new: State, cfg: Config, w: Window, ws: u32) -> bool {
    let cur = old.current_monitor;
    let m = old.cur_mon();
    let rest = m.cur().entries().remove(index_of(m.cur().entries(), w));
    let ww = m.cur().client(w);
    let t = target_monitor(old, ws);
    let tm = old.mons()[t];
    &&& new.mons().dom() == old.mons().dom()
    &&& forall|k: MonitorId| #[trigger] new.mons().contains_key(k) && k != cur && k != t ==> new.mons()[k] == old.mons()[k]
    &&& if ws == tm.current_ws {
        // `ws` is shown on another monitor
        let s0 = sort_by_toc(insert_entry(tm.cur().entries(), w, ww));
        let rects = spec_place_window(tm.cur().current_tag, cfg, tm.screen, tm.dock_area, w, tm.cur().windows());
        &&& t != cur
        &&& shown_clients_replaced(m, new.mons()[cur], rest)
        &&& same_monitor_frame(tm, new.mons()[t])
        &&& clients_replaced(
            tm.wss(),
            new.mons()[t].wss(),
            ws,
            place_moved(s0, rects, w, ww.toc, moved_state(tm.cur().current_tag, rects.len() as int)),
        )
    } else if tm.wss().contains_key(ws) {
        // `ws` is hidden on monitor `t`
        let s0 = sort_by_toc(insert_entry(tm.wss()[ws].entries(), w, ww));
        let tag = tm.wss()[ws].current_tag;
        let rects = spec_place_window(tag, cfg, tm.screen, tm.dock_area, w, wrappers(s0));
        let e = place_moved(s0, rects, w, ww.toc, moved_state(tag, rects.len() as int));
        &&& same_monitor_frame(tm, new.mons()[t])
        &&& if t == cur {
            two_replaced(m.wss(), new.mons()[t].wss(), m.current_ws, rest, ws, e)
        } else {
            &&& shown_clients_replaced(m, new.mons()[cur], rest)
            &&& clients_replaced(tm.wss(), new.mons()[t].wss(), ws, e)
        }
    } else {
        // `ws` is made on the current monitor
        let tag = cfg.default_layout;
        let rects = spec_place_window(tag, cfg, m.screen, m.dock_area, w, Seq::empty());
        let n = new.mons()[cur];
        &&& t == cur
        &&& same_monitor_frame(m, n)
        &&& n.wss().dom() == m.wss().dom().insert(ws)
        &&& forall|k: u32| #[trigger] n.wss().contains_key(k) && k != ws && k != m.current_ws ==> n.wss()[k] == m.wss()[k]
        &&& n.wss().contains_key(m.current_ws) ==> same_but_clients(m.cur(), n.wss()[m.current_ws])
            && n.wss()[m.current_ws].entries() == rest
        &&& n.wss()[ws].wf()
        &&& n.wss()[ws].tag == ws
        &&& n.wss()[ws].focus_w == old.root
        &&& n.wss()[ws].current_tag == tag
        &&& n.wss()[ws].entries() == added_entries(rects, ww, moved_state(tag, rects.len() as int))
    }
}

/// Where the layout of workspace `wsv` places its windows when `w` is new,
/// on `screen` with `dock_area`.
pub(crate) fn placed_rects(wsv: &Workspace, cfg: &Config, screen: &Screen, dock_area: &crate::models::dockarea::DockArea, w: Window) -> (r: Vec<(Window, Rect)>)
    requires
        wsv.wf(),
        crate::layout::floating::layout_inputs_ok(*cfg, *screen, *dock_area),
    ensures
        r@ == spec_place_window(wsv.current_tag, *cfg, *screen, *dock_area, w, wsv.windows()),
{
    let vals = wsv.client_values();
    wsv.layout.place_window(cfg, dock_area, screen, w, vals.as_slice())
}

/// Files each window named in `rects` in the empty workspace `wsv`, from
/// the wrapper `ww`, with its rectangle and the state `cs`.
fn add_placed_windows(wsv: &mut Workspace, rects: &Vec<(Window, Rect)>, ww: WindowWrapper, cs: WindowState)
    requires
        old(wsv).wf(),
        old(wsv).entries().len() == 0,
    ensures
        final(wsv).wf(),
        final(wsv).tag == old(wsv).tag,
        final(wsv).focus_w == old(wsv).focus_w,
        final(wsv).current_tag == old(wsv).current_tag,
        final(wsv).entries() == added_entries(rects@, ww, cs),
        final(wsv).entries().len() <= rects@.len(),
{
    let mut i: usize = 0;
    while i < rects.len()
        invariant
            i <= rects@.len(),
            wsv.wf(),
            wsv.tag == old(wsv).tag,
            wsv.focus_w == old(wsv).focus_w,
            wsv.current_tag == old(wsv).current_tag,
            wsv.entries() == added_entries(rects@.take(i as int), ww, cs),
            wsv.entries().len() <= i,
        decreases rects@.len() - i,
    {
        let (win, rect) = rects[i];
        proof {
            assert(rects@.take(i as int + 1).drop_last() =~= rects@.take(i as int));
        }
        let nw = WindowWrapper {
            restore_position: rect.get_position(),
            previous_state: WindowState::Free,
            current_state: cs,
            window_rect: rect,
            ..ww
        };
        let ghost before = wsv.entries();
        wsv.add_window(win, nw);
        proof {
            crate::models::client_map::lemma_sort_contents(insert_entry(before, win, nw));
        }
        i = i + 1;
    }
    proof {
        assert(rects@.take(rects@.len() as int) =~= rects@);
    }
}

/// The state for windows placed by a move: see `moved_state`.
fn moved_state_of(tag: LayoutTag, n: usize) -> (cs: WindowState)
    ensures
        cs == moved_state(tag, n as int),
{
    if n == 1 && tag != LayoutTag::Floating {
        WindowState::Maximized
    } else {
        WindowState::Free
    }
}

/// Files `w` in the workspace that `tm` shows, the layout having placed it
/// before it was filed.
fn move_into_shown(tm: &mut Monitor, cfg: &Config, w: Window, ww: WindowWrapper)
    requires
        old(tm).wf(),
        old(tm).has_current(),
        old(tm).inputs_ok(*cfg),
    ensures
        final(tm).wf(),
        same_monitor_frame(*old(tm), *final(tm)),
        ({
            let c = old(tm).cur();
            let s0 = sort_by_toc(insert_entry(c.entries(), w, ww));
            let rects = spec_place_window(c.current_tag, *cfg, old(tm).screen, old(tm).dock_area, w, c.windows());
            clients_replaced(
                old(tm).wss(),
                final(tm).wss(),
                old(tm).current_ws,
                place_moved(s0, rects, w, ww.toc, moved_state(c.current_tag, rects.len() as int)),
            )
        }),
        final(tm).cur().entries().len() <= old(tm).cur().entries().len() + 1,
{
    let rects = tm.place_window(cfg, w);
    let tag = tm.get_current_layout().unwrap();
    let cs = moved_state_of(tag, rects.len());
    let cw = tm.current_ws;
    let mut wsv = tm.remove_ws(cw).unwrap();
    let ghost e0 = wsv.entries();
    wsv.add_window(w, ww);
    proof {
        crate::models::client_map::lemma_sort_contents(insert_entry(e0, w, ww));
    }
    place_moved_window(&mut wsv, &rects, w, ww.toc, cs);
    tm.add_ws(wsv);
    proof {
        assert(final(tm).wss().dom() =~= old(tm).wss().dom());
    }
}

/// Files `w` in workspace `ws` of `tm`, which `tm` does not show, and lets
/// the layout of `ws` place it.
fn move_into_hidden(tm: &mut Monitor, cfg: &Config, w: Window, ww: WindowWrapper, ws: u32)
    requires
        old(tm).wf(),
        old(tm).inputs_ok(*cfg),
        old(tm).wss().contains_key(ws),
    ensures
        final(tm).wf(),
        same_monitor_frame(*old(tm), *final(tm)),
        ({
            let c = old(tm).wss()[ws];
            let s0 = sort_by_toc(insert_entry(c.entries(), w, ww));
            let rects = spec_place_window(c.current_tag, *cfg, old(tm).screen, old(tm).dock_area, w, wrappers(s0));
            clients_replaced(
                old(tm).wss(),
                final(tm).wss(),
                ws,
                place_moved(s0, rects, w, ww.toc, moved_state(c.current_tag, rects.len() as int)),
            )
        }),
        final(tm).wss()[ws].entries().len() <= old(tm).wss()[ws].entries().len() + 1,
{
    let mut wsv = tm.remove_ws(ws).unwrap();
    let ghost e0 = wsv.entries();
    wsv.add_window(w, ww);
    proof {
        crate::models::client_map::lemma_sort_contents(insert_entry(e0, w, ww));
    }
    let rects = placed_rects(&wsv, cfg, &tm.screen, &tm.dock_area, w);
    let cs = moved_state_of(wsv.get_current_layout(), rects.len());
    place_moved_window(&mut wsv, &rects, w, ww.toc, cs);
    tm.add_ws(wsv);
    proof {
        assert(final(tm).wss().dom() =~= old(tm).wss().dom());
    }
}

/// Adds workspace `ws`, with the configured layout and the focus on
/// `root`, to `tm`, and files `w` there as the layout places it.
fn move_into_new(tm: &mut Monitor, cfg: &Config, w: Window, ww: WindowWrapper, ws: u32, root: Window)
    requires
        old(tm).wf(),
        old(tm).inputs_ok(*cfg),
        !old(tm).wss().contains_key(ws),
    ensures
        final(tm).wf(),
        same_monitor_frame(*old(tm), *final(tm)),
        final(tm).wss().dom() == old(tm).wss().dom().insert(ws),
        forall|k: u32| #[trigger] final(tm).wss().contains_key(k) && k != ws ==> final(tm).wss()[k] == old(tm).wss()[k],
        ({
            let n = final(tm).wss()[ws];
            let tag = cfg.default_layout;
            let rects = spec_place_window(tag, *cfg, old(tm).screen, old(tm).dock_area, w, Seq::empty());
            &&& n.wf()
            &&& n.tag == ws
            &&& n.focus_w == root
            &&& n.current_tag == tag
            &&& n.entries() == added_entries(rects, ww, moved_state(tag, rects.len() as int))
            &&& n.entries().len() <= 1
        }),
{
    let mut wsv = Workspace::with_layout(ws, root, cfg.default_layout);
    proof {
        assert(wsv.windows() =~= Seq::<WindowWrapper>::empty());
    }
    let rects = placed_rects(&wsv, cfg, &tm.screen, &tm.dock_area, w);
    proof {
        assert(!crate::layout::column_master::has_tiled(Seq::<WindowWrapper>::empty()));
        assert(rects@.len() == 1);
    }
    let cs = moved_state_of(cfg.default_layout, rects.len());
    add_placed_windows(&mut wsv, &rects, ww, cs);
    tm.add_ws(wsv);
}

/// Window `w` of the current workspace can be moved to workspace `ws`.
pub open spec fn can_move_to_ws(state: State, w: Window, ws: u32) -> bool {
    &&& state.has_current()
    &&& ws != state.cur_mon().current_ws
    &&& state.cur_mon().has_current()
    &&& state.cur_mon().cur().has_window(w)
}

/// What moving window `w` to workspace `ws` does; see `move_to_ws`.
pub open spec fn moved_ws(old: State, new: State, cfg: Config, w: Window, ws: u32, r: Option<()>, acts: Seq<Action>, new_acts: Seq<Action>) -> bool {
    &&& same_but_monitors(old, new)
    &&& new.focus_w == old.focus_w
    &&& new.current_monitor == old.current_monitor
    &&& can_move_to_ws(old, w, ws) ==> {
        &&& r is Some
        &&& moved_to_ws(old, new, cfg, w, ws)
        &&& new_acts == acts.push(Action::UnmapWindow(w))
    }
    &&& !can_move_to_ws(old, w, ws) ==> {
        &&& new == old
        &&& new_acts == acts
        &&& (r is Some <==> old.has_current() && ws == old.cur_mon().current_ws)
    }
}

/// Moves window `w` of the current workspace to workspace `ws`, and unmaps
/// it.
///
/// `ws` is looked for as `set_current_ws` does: on the monitor that alone
/// has it, where it may be shown or hidden, else it is made on the current
/// monitor.  There the layout of `ws` places the window; when it places it
/// alone and does not float, the window is maximized.  A window moved
/// becomes the newest of `ws`.  `Some` when `ws` is shown already on the
/// current monitor, which changes nothing; `None` when there is no current
/// monitor or when `w` is not in the current workspace.
pub fn move_to_ws(state: &mut State, cfg: &Config, w: Window, ws: u32, actions: &mut Vec<Action>) -> (r: Option<()>)
    requires
        old(state).wf(),
        old(state).inputs_ok(*cfg),
    ensures
        final(state).wf(),
        final(state).inputs_ok(*cfg),
        all_shown(*old(state)) ==> all_shown(*final(state)),
        moved_ws(*old(state), *final(state), *cfg, w, ws, r, old(actions)@, final(actions)@),
{
    broadcast use vstd::std_specs::hash::group_hash_axioms;

    if !state.monitors.contains_key(&state.current_monitor) {
        return None;
    }
    let cur = state.current_monitor;
    let found = get_mon_by_ws(state, ws);
    proof {
        lemma_the_only_unique(*old(state), ws, found);
    }
    let t = match found {
        Some(id) => id,
        None => cur,
    };
    proof {
        if found is Some {
            assert(mons_with_ws(*old(state), ws).contains(t));
        }
    }
    let cm = state.monitors.get(&cur).unwrap();
    if ws == cm.current_ws {
        return Some(());
    }
    let ww = match cm.get_client(w) {
        Some(ww) => ww,
        None => return None,
    };
    let tmr = state.monitors.get(&t).unwrap();
    let shown = ws == tmr.current_ws;
    let has_ws = tmr.contains_ws(ws);
    let ghost m = old(state).mons()[cur];
    let ghost tm0 = old(state).mons()[t];
    let mut m1 = state.take_monitor(cur).unwrap();
    let _ = m1.remove_window(w);
    state.put_monitor(m1);
    let ghost mid = *state;
    let mut tm = state.take_monitor(t).unwrap();
    proof {
        assert(t != cur ==> tm == tm0);
        assert(tm.inputs_ok(*cfg));
    }
    if shown {
        proof {
            assert(t != cur);
        }
        move_into_shown(&mut tm, cfg, w, ww);
    } else if has_ws {
        move_into_hidden(&mut tm, cfg, w, ww, ws);
    } else {
        proof {
            assert(t == cur);
        }
        move_into_new(&mut tm, cfg, w, ww, ws, state.root);
    }
    state.put_monitor(tm);
    actions.push(Action::UnmapWindow(w));
    proof {
        assert(final(state).mons().dom() =~= old(state).mons().dom());
        assert forall|id: MonitorId| #[trigger] final(state).mons().contains_key(id) implies final(state).mons()[id].inputs_ok(*cfg) by {
            assert(old(state).mons().contains_key(id));
        }
    }
    Some(())
}

/// The monitor that alone holds window `w`, if one alone holds it.
pub open spec fn unique_mon_with_window(state: State, w: Window) -> Option<MonitorId> {
    let s = mons_with_window(state, w);
    if exists|id: MonitorId| s.contains(id) && forall|j: MonitorId| s.contains(j) ==> j == id {
        Some(choose|id: MonitorId| s.contains(id) && forall|j: MonitorId| s.contains(j) ==> j == id)
    } else {
        None
    }
}

/// The monitor that alone holds window `w`, else the current monitor.
pub open spec fn window_monitor(state: State, w: Window) -> MonitorId {
    match unique_mon_with_window(state, w) {
        Some(id) => id,
        None => state.current_monitor,
    }
}

/// The monitor that alone holds window `w`, else the current monitor.
pub fn mon_of_window(state: &State, w: Window) -> (id: MonitorId)
    requires
        state.wf(),
        state.has_current(),
    ensures
        id == window_monitor(*state, w),
        state.mons().contains_key(id),
{
    let found = get_mon_by_window(state, w);
    proof {
        let s = mons_with_window(*state, w);
        match found {
            Some(id) => {
                let c = choose|c: MonitorId| s.contains(c) && forall|j: MonitorId| s.contains(j) ==> j == c;
                assert(c == id);
            },
            None => {
                if exists|id: MonitorId| s.contains(id) && forall|j: MonitorId| s.contains(j) ==> j == id {
                    let id = choose|id: MonitorId| s.contains(id) && forall|j: MonitorId| s.contains(j) ==> j == id;
                    let j = choose|j: MonitorId| s.contains(j) && j != id;
                    assert(false);
                }
            },
        }
    }
    match found {
        Some(id) => id,
        None => state.current_monitor,
    }
}

} // verus!

//! A client asks to be mapped.
use vstd::prelude::*;
use crate::action::Action;
use crate::config::Config;
use crate::geometry::{div_trunc, Geometry, MonitorId, Position, Rect, Size, Window};
use crate::layout::{spec_place_window, LayoutTag};
use crate::models::client_map::{has_key, index_of, insert_entry, sort_by_toc, swapped, Entry};
use crate::models::dockarea::DockArea;
use crate::models::monitor::{clients_replaced, Monitor};
use crate::models::window_type::WindowType;
use crate::models::windowwrapper::{next_toc, WindowWrapper};
use crate::models::workspace::Workspace;
use crate::models::WindowState;
use crate::reducers::shown_ws_updated;
use crate::state::State;
use crate::wm::{placed_rects, sound, spec_window_inside_screen, window_inside_screen};

verus! {

/// A client asks to be mapped; the fields hold what the X server reports
/// of the window.
#[derive(Clone, Copy, Debug)]
pub struct MapRequest {
    pub win: Window,
    pub parent: Window,
    /// The window it is transient for, if any.
    pub transient_for: Option<Window>,
    pub window_type: WindowType,
    /// Whether the window asks to be managed at all.
    pub should_be_managed: bool,
    /// The size in its attributes.
    pub size: Size,
    /// Its strut, when it has one.
    pub strut: Option<DockArea>,
    pub geometry: Geometry,
}

/// Where a transient window of size `size` goes: centred over its parent
/// when the workspace shown holds the parent, centred on the screen when
/// the parent is the root window, `None` else.  Over a parent, whose
/// rectangle is not bounded, the sums wrap around as `i32` does.
pub open spec fn transient_position(m: Monitor, parent: Window, root: Window, size: Size) -> Option<Position> {
    let hw = div_trunc(size.width as int, 2) as i32;
    let hh = div_trunc(size.height as int, 2) as i32;
    if m.cur().has_window(parent) {
        let r = m.cur().client(parent).window_rect;
        Some(
            Position {
                x: r.pos().x.wrapping_add(div_trunc(r.sz().width as int, 2) as i32).wrapping_sub(hw),
                y: r.pos().y.wrapping_add(div_trunc(r.sz().height as int, 2) as i32).wrapping_sub(hh),
            },
        )
    } else if parent == root {
        Some(
            Position {
                x: (m.screen.x + (div_trunc(m.screen.width as int, 2) - hw)) as i32,
                y: (m.screen.y + (div_trunc(m.screen.height as int, 2) - hh)) as i32,
            },
        )
    } else {
        None
    }
}

/// The wrapper of a window newly mapped at `rect` at time `t`: maximized
/// when `maxed`, else free.
pub open spec fn mapped_wrapper(win: Window, rect: Rect, t: u64, maxed: bool) -> WindowWrapper {
    let ww = WindowWrapper::spec_new(win, rect, false, t);
    if maxed {
        WindowWrapper { previous_state: WindowState::Maximized, current_state: WindowState::Maximized, ..ww }
    } else {
        ww
    }
}

/// The clients `s` when the layout gives `rect` to `win`, the window `new`
/// being mapped: a window filed already becomes free at `rect`, keeping
/// its state as the one to go back to when it was maximized or in monocle;
/// `new` is filed when it is not yet; any other window is left alone.
pub open spec fn map_step(s: Seq<Entry>, win: Window, rect: Rect, new: Window, t: u64, maxed: bool) -> Seq<Entry> {
    if has_key(s, win) {
        let ww = s[index_of(s, win)].1;
        let nw = if ww.current_state == WindowState::Maximized || ww.current_state == WindowState::Monocle {
            WindowWrapper { window_rect: rect, previous_state: ww.current_state, current_state: WindowState::Free, ..ww }
        } else {
            WindowWrapper { window_rect: rect, current_state: WindowState::Free, ..ww }
        };
        swapped(s, win, nw)
    } else if win == new {
        sort_by_toc(insert_entry(s, win, mapped_wrapper(win, rect, t, maxed)))
    } else {
        s
    }
}

/// The clients `s` after each rectangle of `rects` was handed out, in order.
pub open spec fn map_placed(s: Seq<Entry>, rects: Seq<(Window, Rect)>, new: Window, t: u64, maxed: bool) -> Seq<Entry>
    decreases rects.len(),
{
    if rects.len() == 0 {
        s
    } else {
        map_step(map_placed(s, rects.drop_last(), new, t, maxed), rects.last().0, rects.last().1, new, t, maxed)
    }
}

/// `rects` names `w`.
pub open spec fn names(rects: Seq<(Window, Rect)>, w: Window) -> bool {
    exists|j: int| 0 <= j < rects.len() && rects[j].0 == w
}

/// The window is handled as transient.
pub open spec fn is_transient(ev: MapRequest) -> bool {
    ev.transient_for is Some || ev.window_type == WindowType::Dialog
}

/// The window is handled as a dock.
pub open spec fn is_dock(ev: MapRequest) -> bool {
    !is_transient(ev) && ev.window_type == WindowType::Dock
}

/// Some monitor's screen holds the top left corner of the window.
pub open spec fn dock_has_monitor(state: State, g: Geometry) -> bool {
    exists|id: MonitorId| #[trigger] state.mons().contains_key(id) && spec_window_inside_screen(g, state.mons()[id].screen)
}

/// What mapping does to the state and the effects, at time `t`.
pub open spec fn mapped(old: State, new: State, cfg: Config, ev: MapRequest, t: u64, acts: Seq<Action>, new_acts: Seq<Action>) -> bool {
    let cur = old.current_monitor;
    let m = old.cur_mon();
    let c = m.cur();
    if is_transient(ev) {
        &&& new_acts == acts
        &&& match transient_position(m, ev.parent, old.root, ev.size) {
            Some(pos) => {
                let ww = WindowWrapper::spec_new(ev.win, Rect::mk(pos, ev.size), true, t);
                &&& new.mons().dom() == old.mons().dom()
                &&& forall|k: MonitorId| #[trigger] new.mons().contains_key(k) && k != cur ==> new.mons()[k] == old.mons()[k]
                &&& crate::wm::same_monitor_frame(m, new.cur_mon())
                &&& clients_replaced(m.wss(), new.cur_mon().wss(), m.current_ws, sort_by_toc(insert_entry(c.entries(), ev.win, ww)))
                &&& new.focus_w == old.focus_w
            },
            _ => new == old,
        }
    } else if is_dock(ev) {
        match ev.strut {
            Some(d) => {
                &&& new.focus_w == old.focus_w
                &&& new_acts == acts.push(Action::SelectDockInput(ev.win)).push(Action::MapWindow(ev.win))
                &&& exists|id: MonitorId| #![trigger old.mons()[id]]
                    old.mons().contains_key(id) && spec_window_inside_screen(ev.geometry, old.mons()[id].screen)
                    && new.mons() == old.mons().insert(id, Monitor { dock_area: d, ..old.mons()[id] })
            },
            _ => new == old && new_acts == acts,
        }
    } else if !ev.should_be_managed {
        new == old && new_acts == acts
    } else if m.holds(ev.parent) {
        new == old && new_acts == acts.push(Action::MapWindow(ev.win)).push(Action::TakeFocus(ev.win))
    } else {
        let rects = spec_place_window(c.current_tag, cfg, m.screen, m.dock_area, ev.win, c.windows());
        let maxed = rects.len() == 1 && c.current_tag != LayoutTag::Floating;
        let placed = !c.has_window(ev.win) && names(rects, ev.win);
        let focus = if placed { ev.win } else { c.focus_w };
        &&& new_acts == acts
        &&& new.mons().dom() == old.mons().dom()
        &&& forall|k: MonitorId| #[trigger] new.mons().contains_key(k) && k != cur ==> new.mons()[k] == old.mons()[k]
        &&& shown_ws_updated(m, new.cur_mon(), map_placed(c.entries(), rects, ev.win, t, maxed), focus)
        &&& new.focus_w == (if placed { ev.win } else { old.focus_w })
    }
}

/// Hands out the rectangles of `rects` in workspace `wsv`; `true` when the
/// new window `new` was filed.
fn map_placed_windows(wsv: &mut Workspace, rects: &Vec<(Window, Rect)>, new: Window, t: u64, maxed: bool) -> (placed: bool)
    requires
        old(wsv).wf(),
    ensures
        final(wsv).wf(),
        final(wsv).tag == old(wsv).tag,
        final(wsv).focus_w == old(wsv).focus_w,
        final(wsv).current_tag == old(wsv).current_tag,
        final(wsv).entries() == map_placed(old(wsv).entries(), rects@, new, t, maxed),
        final(wsv).entries().len() <= old(wsv).entries().len() + 1,
        placed == (!old(wsv).has_window(new) && names(rects@, new)),
{
    let mut placed = false;
    let mut i: usize = 0;
    while i < rects.len()
        invariant
            i <= rects@.len(),
            wsv.wf(),
            wsv.tag == old(wsv).tag,
            wsv.focus_w == old(wsv).focus_w,
            wsv.current_tag == old(wsv).current_tag,
            wsv.entries() == map_placed(old(wsv).entries(), rects@.take(i as int), new, t, maxed),
            placed == (!old(wsv).has_window(new) && names(rects@.take(i as int), new)),
            placed || old(wsv).has_window(new) ==> wsv.has_window(new),
            !placed && !old(wsv).has_window(new) ==> !wsv.has_window(new),
            wsv.entries().len() <= old(wsv).entries().len() + (if placed { 1int } else { 0int }),
        decreases rects@.len() - i,
    {
        let (win, rect) = rects[i];
        proof {
            assert(rects@.take(i as int + 1).drop_last() =~= rects@.take(i as int));
            assert(rects@.take(i as int + 1).last() == rects@[i as int]);
        }
        let ghost before = wsv.entries();
        match wsv.get_client(win) {
            Some(ww) => {
                let nw = if ww.current_state == WindowState::Maximized || ww.current_state == WindowState::Monocle {
                    WindowWrapper { window_rect: rect, previous_state: ww.current_state, current_state: WindowState::Free, ..ww }
                } else {
                    WindowWrapper { window_rect: rect, current_state: WindowState::Free, ..ww }
                };
                let _ = wsv.replace_window(win, nw);
                proof {
                    crate::models::client_map::lemma_refile(before, win, nw);
                }
            },
            None => {
                if win == new {
                    let maxed_ww = mapped_wrapper_of(win, rect, t, maxed);
                    wsv.add_window(win, maxed_ww);
                    proof {
                        crate::models::client_map::lemma_sort_contents(insert_entry(before, win, maxed_ww));
                        let ins = insert_entry(before, win, maxed_ww);
                        assert(ins[ins.len() - 1] == (win, maxed_ww));
                        assert(ins.contains((win, maxed_ww)));
                        let srt = sort_by_toc(ins);
                        let k = choose|k: int| 0 <= k < srt.len() && srt[k] == (win, maxed_ww);
                        assert(has_key(srt, win));
                    }
                    placed = true;
                }
            },
        }
        proof {
            let tk = rects@.take(i as int + 1);
            if names(rects@.take(i as int), new) {
                let j = choose|j: int| 0 <= j < i && rects@.take(i as int)[j].0 == new;
                assert(tk[j].0 == new);
            }
            if win == new {
                assert(tk[i as int].0 == new);
            }
            if names(tk, new) && win != new {
                let j = choose|j: int| 0 <= j < tk.len() && tk[j].0 == new;
                assert(j < i);
                assert(rects@.take(i as int)[j].0 == new);
            }
        }
        i = i + 1;
    }
    proof {
        assert(rects@.take(rects@.len() as int) =~= rects@);
    }
    placed
}

/// The wrapper of a window newly mapped; see `mapped_wrapper`.
fn mapped_wrapper_of(win: Window, rect: Rect, t: u64, maxed: bool) -> (ww: WindowWrapper)
    ensures
        ww == mapped_wrapper(win, rect, t, maxed),
{
    let ww = WindowWrapper::new_at(win, rect, false, t);
    if maxed {
        WindowWrapper { previous_state: WindowState::Maximized, current_state: WindowState::Maximized, ..ww }
    } else {
        ww
    }
}

/// Where a transient window goes; see `transient_position`.
fn transient_pos(mon: &Monitor, parent: Window, root: Window, size: Size) -> (r: Option<Position>)
    requires
        mon.wf(),
        mon.has_current(),
        mon.screen.in_range(),
    ensures
        r == transient_position(*mon, parent, root, size),
{
    let hw = size.width / 2;
    let hh = size.height / 2;
    match mon.get_client(parent) {
        Some(ww) => {
            let pos = ww.get_position();
            let sz = ww.get_size();
            Some(
                Position {
                    x: pos.x.wrapping_add(sz.width / 2).wrapping_sub(hw),
                    y: pos.y.wrapping_add(sz.height / 2).wrapping_sub(hh),
                },
            )
        },
        None => {
            if parent == root {
                proof {
                    crate::geometry::lemma_div_trunc_bound(size.width as int, 2);
                    crate::geometry::lemma_div_trunc_bound(size.height as int, 2);
                    crate::geometry::lemma_div_trunc_bound(mon.screen.width as int, 2);
                    crate::geometry::lemma_div_trunc_bound(mon.screen.height as int, 2);
                }
                Some(
                    Position {
                        x: mon.screen.x + (mon.screen.width / 2 - hw),
                        y: mon.screen.y + (mon.screen.height / 2 - hh),
                    },
                )
            } else {
                None
            }
        },
    }
}

/// Files a transient window in the workspace shown, at time `t`.
fn map_transient(state: &mut State, cfg: &Config, ev: &MapRequest, t: u64)
    requires
        sound(*old(state), *cfg),
        is_transient(*ev),
    ensures
        sound(*final(state), *cfg),
        crate::wm::same_but_monitors(*old(state), *final(state)),
        final(state).current_monitor == old(state).current_monitor,
        mapped(*old(state), *final(state), *cfg, *ev, t, Seq::empty(), Seq::empty()),
{
    broadcast use vstd::std_specs::hash::group_hash_axioms;

    let cur = state.current_monitor;
    let mon = state.monitors.get(&cur).unwrap();
    let pos = match transient_pos(mon, ev.parent, state.root, ev.size) {
        Some(p) => p,
        None => return,
    };
    let ww = WindowWrapper::new_at(ev.win, Rect::new(pos, ev.size), true, t);
    let mut mon = state.take_monitor(cur).unwrap();
    let ghost m = mon;
    mon.add_window(ev.win, ww);
    proof {
        crate::models::client_map::lemma_sort_contents(insert_entry(m.cur().entries(), ev.win, ww));
    }
    state.put_monitor(mon);
    proof {
        assert(final(state).mons().dom() =~= old(state).mons().dom());
        assert forall|id: MonitorId| #[trigger] final(state).mons().contains_key(id) implies final(state).mons()[id].inputs_ok(*cfg) by {
            assert(old(state).mons().contains_key(id));
        }
    }
}

/// The monitor whose screen holds the top left corner of `g`, if any.
pub fn dock_monitor(state: &State, cfg: &Config, g: &Geometry) -> (r: Option<MonitorId>)
    requires
        state.wf(),
        state.inputs_ok(*cfg),
    ensures
        r matches Some(id) ==> state.mons().contains_key(id) && spec_window_inside_screen(*g, state.mons()[id].screen),
        r is None ==> !dock_has_monitor(*state, *g),
{
    broadcast use vstd::std_specs::hash::group_hash_axioms;

    let ids = state.monitor_ids();
    let mut i: usize = 0;
    while i < ids.len()
        invariant
            i <= ids@.len(),
            state.wf(),
            state.inputs_ok(*cfg),
            ids@.to_set() == state.mons().dom(),
            forall|j: int| 0 <= j < i ==> !spec_window_inside_screen(*g, state.mons()[#[trigger] ids@[j]].screen),
        decreases ids@.len() - i,
    {
        let id = ids[i];
        proof {
            assert(ids@.to_set().contains(id));
        }
        let mon = state.monitors.get(&id).unwrap();
        if window_inside_screen(g, &mon.screen) {
            return Some(id);
        }
        i = i + 1;
    }
    proof {
        if dock_has_monitor(*state, *g) {
            let id = choose|id: MonitorId| #[trigger] state.mons().contains_key(id) && spec_window_inside_screen(*g, state.mons()[id].screen);
            assert(ids@.to_set().contains(id));
            let j = choose|j: int| 0 <= j < ids@.len() && ids@[j] == id;
            assert(!spec_window_inside_screen(*g, state.mons()[ids@[j]].screen));
        }
    }
    None
}

/// Gives the dock area `d` to the monitor whose screen holds the dock, and
/// asks for the dock's pointer and redirect events and for it to be mapped.
fn map_dock(state: &mut State, cfg: &Config, ev: &MapRequest, d: DockArea, actions: &mut Vec<Action>)
    requires
        sound(*old(state), *cfg),
        is_dock(*ev),
        ev.strut == Some(d),
        d.in_range(),
        dock_has_monitor(*old(state), ev.geometry),
    ensures
        sound(*final(state), *cfg),
        crate::wm::same_but_monitors(*old(state), *final(state)),
        final(state).current_monitor == old(state).current_monitor,
        mapped(*old(state), *final(state), *cfg, *ev, 0, old(actions)@, final(actions)@),
{
    broadcast use vstd::std_specs::hash::group_hash_axioms;

    let id = dock_monitor(state, cfg, &ev.geometry).unwrap();
    let mut mon = state.take_monitor(id).unwrap();
    let ghost m = mon;
    mon.set_dock_area(d);
    state.put_monitor(mon);
    actions.push(Action::SelectDockInput(ev.win));
    actions.push(Action::MapWindow(ev.win));
    proof {
        assert(final(state).mons() =~= old(state).mons().insert(id, Monitor { dock_area: d, ..old(state).mons()[id] }));
        assert forall|k: MonitorId| #[trigger] final(state).mons().contains_key(k) implies final(state).mons()[k].inputs_ok(*cfg) by {
            assert(old(state).mons().contains_key(k));
        }
        assert(old(state).mons().contains_key(id) && spec_window_inside_screen(ev.geometry, old(state).mons()[id].screen));
    }
}

/// Answers a request to map a window, at time `t`.
///
/// A window transient for another, or a dialog, is filed in the workspace
/// shown, centred over its parent or on the screen (nothing happens when
/// its parent is neither a client there nor the root window).  A dock
/// with a strut reserves its area on the monitor whose screen holds it,
/// and is mapped unmanaged.  A window that does not ask to be managed is
/// left alone; a child of a managed window is mapped and takes the focus
/// unmanaged.  Any other window is placed by the layout of the workspace
/// shown, which gives every window it names its rectangle and makes it
/// free; the new window is filed, maximized when the layout places it
/// alone and does not float, and takes the focus.
///
/// A dock's strut must lie in the computable range.
pub fn map_request_at(state: &mut State, cfg: &Config, ev: &MapRequest, t: u64, actions: &mut Vec<Action>)
    requires
        sound(*old(state), *cfg),
        is_dock(*ev) && ev.strut is Some ==> dock_has_monitor(*old(state), ev.geometry),
        is_dock(*ev) && ev.strut is Some ==> ev.strut->0.in_range(),
    ensures
        sound(*final(state), *cfg),
        crate::wm::same_but_monitors(*old(state), *final(state)),
        final(state).current_monitor == old(state).current_monitor,
        mapped(*old(state), *final(state), *cfg, *ev, t, old(actions)@, final(actions)@),
{
    broadcast use vstd::std_specs::hash::group_hash_axioms;

    if ev.transient_for.is_some() || ev.window_type == WindowType::Dialog {
        map_transient(state, cfg, ev, t);
        return;
    }
    if ev.window_type == WindowType::Dock {
        match ev.strut {
            Some(d) => {
                map_dock(state, cfg, ev, d, actions);
            },
            None => {},
        }
        return;
    }
    if !ev.should_be_managed {
        return;
    }
    let cur = state.current_monitor;
    let mon = state.monitors.get(&cur).unwrap();
    if mon.contains_window(ev.parent) {
        actions.push(Action::MapWindow(ev.win));
        actions.push(Action::TakeFocus(ev.win));
        return;
    }
    let mut mon = state.take_monitor(cur).unwrap();
    let ghost m = mon;
    let cw = mon.current_ws;
    let mut wsv = mon.remove_ws(cw).unwrap();
    let rects = placed_rects(&wsv, cfg, &mon.screen, &mon.dock_area, ev.win);
    let maxed = rects.len() == 1 && wsv.get_current_layout() != LayoutTag::Floating;
    let placed = map_placed_windows(&mut wsv, &rects, ev.win, t, maxed);
    if placed {
        wsv.focus_w = ev.win;
        state.focus_w = ev.win;
    }
    mon.add_ws(wsv);
    state.put_monitor(mon);
    proof {
        assert(final(state).mons().dom() =~= old(state).mons().dom());
        assert forall|id: MonitorId| #[trigger] final(state).mons().contains_key(id) implies final(state).mons()[id].inputs_ok(*cfg) by {
            assert(old(state).mons().contains_key(id));
        }
        assert(final(state).cur_mon().wss().dom() =~= m.wss().dom());
    }
}

/// Answers a request to map a window, taken into management now; see
/// `map_request_at`.  The new window is stamped after the newest window of
/// the workspace shown, so that it becomes the newest there.
pub fn map_request(state: &mut State, cfg: &Config, ev: &MapRequest, actions: &mut Vec<Action>)
    requires
        sound(*old(state), *cfg),
        is_dock(*ev) && ev.strut is Some ==> dock_has_monitor(*old(state), ev.geometry),
        is_dock(*ev) && ev.strut is Some ==> ev.strut->0.in_range(),
    ensures
        sound(*final(state), *cfg),
        crate::wm::same_but_monitors(*old(state), *final(state)),
        final(state).current_monitor == old(state).current_monitor,
        exists|t: u64| {
            &&& mapped(*old(state), *final(state), *cfg, *ev, t, old(actions)@, final(actions)@)
            &&& stamped_after_newest(*old(state), t)
        },
{
    broadcast use vstd::std_specs::hash::group_hash_axioms;

    let newest = match state.monitors.get(&state.current_monitor).unwrap().get_newest() {
        Some((_, ww)) => ww.toc,
        None => 0,
    };
    let t = next_toc(newest);
    proof {
        assert(old(state).cur_mon().has_current());
        assert(stamped_after_newest(*old(state), t));
    }
    map_request_at(state, cfg, ev, t, actions);
    proof {
        assert(mapped(*old(state), *final(state), *cfg, *ev, t, old(actions)@, final(actions)@));
    }
}

/// Time `t` comes after the stamp of every window of the workspace shown,
/// where a later stamp can be had.
pub open spec fn stamped_after_newest(state: State, t: u64) -> bool {
    let c = state.cur_mon().cur();
    c.entries().len() > 0 && c.entries().last().1.toc < u64::MAX ==> t > c.entries().last().1.toc
}

} // verus!

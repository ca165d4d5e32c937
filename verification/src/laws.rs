//! What holds of the library across its operations.
use vstd::prelude::*;
use crate::action::Action;
use crate::config::Config;
use crate::geometry::{spec_from_c_bool, spec_to_c_bool, Rect, Window};
use crate::layout::{spec_reorder, LayoutTag};
use crate::models::client_map::{
    has_key, index_of, insert_by_toc, insert_entry, keys_unique, lemma_insert_by_toc_shape, lemma_refile,
    lemma_sort_contents, lemma_sort_of_sorted, lemma_sort_sorted, sort_by_toc, sorted_by_toc, swapped, Entry,
};
use crate::models::dockarea::DockArea;
use crate::models::monitor::apply_rects;
use crate::models::screen::Screen;
use crate::models::windowwrapper::WindowWrapper;
use crate::models::workspace::{next_layout, Workspace};
use crate::models::WindowState;
use crate::reactor::{client_appended, clients_appended, focus_appended, known_appended, monitor_appended, reacted, state_change_appended};
use crate::reducers::destroy::destroyed;
use crate::reducers::key_press::spec_keycode_to_ws;
use crate::reducers::map_request::{is_dock, is_transient, map_placed, mapped, mapped_wrapper, names, MapRequest};
use crate::reducers::unmap_notify::{dropped, unmapped};
use crate::reducers::{next_focus, reorder_safe, reordered_if_safe};
use crate::state::State;
use crate::wm::{
    added_entries, arranged_state, can_move_to_ws, mons_with_window, moved_to_ws, place_moved, reordered, sound,
    switched_ws, target_monitor, toggled_maximize, toggled_monocle, unique_mon_with_window, window_monitor,
};

verus! {

/// Reading back the X boolean that was written for `true` gives `true`.
/// (For `false` it gives `true` as well: the writer writes `1` always.)
pub proof fn law_c_bool_round_trip(b: bool)
    requires
        b,
    ensures
        spec_from_c_bool(spec_to_c_bool(b)) == b,
{
}

/// Cycling the layout twice gives back the layout: the cycle has two.
pub proof fn law_cycle_layout_twice(t: LayoutTag)
    ensures
        next_layout(next_layout(t)) == t,
{
}

/// A number key stands for one of the workspaces 0 to 9.
pub proof fn law_keycode_to_ws_range(keycode: u8)
    requires
        keycode >= 10,
    ensures
        spec_keycode_to_ws(keycode) < 10,
{
}

/// Sorting the clients by the time they were taken into management a
/// second time changes nothing.
pub proof fn law_sort_idempotent(s: Seq<Entry>)
    ensures
        sort_by_toc(sort_by_toc(s)) == sort_by_toc(s),
{
    lemma_sort_sorted(s);
    lemma_sort_of_sorted(sort_by_toc(s));
}

/// After `add_window(w, ww)` on a workspace, the workspace holds `w`, and
/// its client is `ww`.
pub proof fn law_client_after_add(ws: Workspace, w: Window, ww: WindowWrapper)
    requires
        ws.wf(),
    ensures
        ({
            let t = sort_by_toc(insert_entry(ws.entries(), w, ww));
            has_key(t, w) && t[index_of(t, w)].1 == ww
        }),
{
    let s = ws.entries();
    let ins = insert_entry(s, w, ww);
    assert(keys_unique(ins)) by {
        if has_key(s, w) {
            let i = index_of(s, w);
            assert forall|a: int, b: int| 0 <= a < ins.len() && 0 <= b < ins.len() && a != b implies ins[a].0 != ins[b].0 by {
                if a != i && b != i {
                    assert(ins[a] == s[a] && ins[b] == s[b]);
                } else if a == i {
                    assert(ins[b] == s[b]);
                } else {
                    assert(ins[a] == s[a]);
                }
            }
        } else {
            assert forall|a: int, b: int| 0 <= a < ins.len() && 0 <= b < ins.len() && a != b implies ins[a].0 != ins[b].0 by {
                if a < s.len() && b < s.len() {
                    assert(ins[a] == s[a] && ins[b] == s[b]);
                } else if a < s.len() {
                    assert(ins[a] == s[a]);
                } else {
                    assert(ins[b] == s[b]);
                }
            }
        }
    }
    assert(ins.contains((w, ww))) by {
        if has_key(s, w) {
            assert(ins[index_of(s, w)] == (w, ww));
        } else {
            assert(ins[ins.len() - 1] == (w, ww));
        }
    }
    lemma_sort_contents(ins);
    let t = sort_by_toc(ins);
    let k = choose|k: int| 0 <= k < t.len() && t[k] == (w, ww);
    assert(has_key(t, w));
    let j = index_of(t, w);
    assert(t[j].0 == w);
    assert(j == k);
}

/// Adding a window that a workspace does not hold, stamped later than all
/// its windows, makes it the newest: it comes last, after the others in
/// their order.
pub proof fn law_later_window_is_newest(ws: Workspace, w: Window, ww: WindowWrapper)
    requires
        ws.wf(),
        !ws.has_window(w),
        forall|i: int| 0 <= i < ws.entries().len() ==> #[trigger] ws.entries()[i].1.toc <= ww.toc,
    ensures
        sort_by_toc(insert_entry(ws.entries(), w, ww)) == ws.entries().push((w, ww)),
{
    let s = ws.entries();
    let t = s.push((w, ww));
    assert(insert_entry(s, w, ww) == t);
    assert(sorted_by_toc(t)) by {
        assert forall|i: int, j: int| 0 <= i <= j < t.len() implies t[i].1.toc <= t[j].1.toc by {
            if j < s.len() {
                assert(t[i] == s[i] && t[j] == s[j]);
            } else if i < s.len() {
                assert(t[i] == s[i]);
            }
        }
    }
    lemma_sort_of_sorted(t);
}

/// Adding a window that a workspace does not hold and taking it out again
/// gives back its wrapper and leaves the clients as they were.
pub proof fn law_remove_after_add(ws: Workspace, w: Window, ww: WindowWrapper)
    requires
        ws.wf(),
        !ws.has_window(w),
    ensures
        ({
            let t = sort_by_toc(insert_entry(ws.entries(), w, ww));
            &&& t[index_of(t, w)].1 == ww
            &&& t.remove(index_of(t, w)) == ws.entries()
        }),
{
    law_client_after_add(ws, w, ww);
    let s = ws.entries();
    assert(insert_entry(s, w, ww) == s.push((w, ww)));
    assert(s.push((w, ww)).drop_last() =~= s);
    lemma_sort_of_sorted(s);
    assert(sort_by_toc(s.push((w, ww))) == insert_by_toc(s, (w, ww)));
    let p = lemma_insert_by_toc_shape(s, (w, ww));
    let t = insert_by_toc(s, (w, ww));
    assert(t[p] == (w, ww));
    assert forall|a: int, b: int| 0 <= a < t.len() && 0 <= b < t.len() && a != b implies t[a].0 != t[b].0 by {
        if a != p && b != p {
            let aa = if a < p { a } else { a - 1 };
            let bb = if b < p { b } else { b - 1 };
            assert(t[a] == s[aa] && t[b] == s[bb]);
        } else if a == p {
            let bb = if b < p { b } else { b - 1 };
            assert(t[b] == s[bb]);
        } else {
            let aa = if a < p { a } else { a - 1 };
            assert(t[a] == s[aa]);
        }
    }
    assert(index_of(t, w) == p);
    assert(t.remove(p) =~= s);
}

/// Maximizing a window that is not maximized, where the layout maximizes
/// it, and toggling again, gives back its rectangle and its state.
pub proof fn law_toggle_maximize_twice(cfg: Config, tag: LayoutTag, n: int, screen: Screen, dock_area: DockArea, ww: WindowWrapper)
    requires
        ww.current_state != WindowState::Maximized,
        tag == LayoutTag::Floating || n != 0,
    ensures
        ({
            let back = toggled_maximize(cfg, tag, n, screen, dock_area, toggled_maximize(cfg, tag, n, screen, dock_area, ww));
            &&& back.window_rect == ww.window_rect
            &&& back.current_state == ww.current_state
            &&& back.restore_position == ww.window_rect.pos()
            &&& back.restore_size == ww.window_rect.sz()
        }),
{
}

/// Putting a window that is not in monocle into monocle and toggling again
/// gives back its rectangle and its state.
pub proof fn law_toggle_monocle_twice(cfg: Config, tag: LayoutTag, screen: Screen, dock_area: DockArea, ww: WindowWrapper)
    requires
        ww.current_state != WindowState::Monocle,
    ensures
        ({
            let back = toggled_monocle(cfg, tag, screen, dock_area, toggled_monocle(cfg, tag, screen, dock_area, ww));
            &&& back.window_rect == ww.window_rect
            &&& back.current_state == ww.current_state
        }),
{
}


/// Once `set_current_ws` succeeded, the monitor chosen for workspace `ws`
/// shows it, and it is the current monitor unless it showed `ws` already.
pub proof fn law_set_current_ws_shows(old: State, new: State, cfg: Config, ws: u32, r: Option<()>)
    requires
        sound(old, cfg),
        switched_ws(old, new, cfg, ws, r),
        r is Some,
    ensures
        new.mons()[target_monitor(old, ws)].current_ws == ws,
        old.mons()[target_monitor(old, ws)].current_ws != ws ==> new.current_monitor == target_monitor(old, ws),
{
}

/// Placing moved windows keeps every window that was filed, and each once.
proof fn lemma_place_moved_keys(s: Seq<Entry>, rects: Seq<(Window, Rect)>, w: Window, w_toc: u64, cs: WindowState)
    requires
        keys_unique(s),
        s.len() > 0,
    ensures
        keys_unique(place_moved(s, rects, w, w_toc, cs)),
        place_moved(s, rects, w, w_toc, cs).len() == s.len(),
        forall|k: Window| #[trigger] has_key(s, k) ==> has_key(place_moved(s, rects, w, w_toc, cs), k),
    decreases rects.len(),
{
    if rects.len() > 0 {
        let s1 = place_moved(s, rects.drop_last(), w, w_toc, cs);
        lemma_place_moved_keys(s, rects.drop_last(), w, w_toc, cs);
        let win = rects.last().0;
        let rect = rects.last().1;
        let newest = s1.last();
        let old_win = s1[index_of(s1, win)].1;
        let nw = WindowWrapper {
            restore_position: rect.pos(),
            window_rect: rect,
            previous_state: WindowState::Free,
            current_state: cs,
            toc: if win == w { newest.1.toc } else { old_win.toc },
            ..old_win
        };
        let s2 = swapped(s1, win, nw);
        if has_key(s1, win) {
            lemma_refile(s1, win, nw);
        }
        if win == w {
            assert(has_key(s1, newest.0)) by {
                assert(s1[s1.len() - 1].0 == newest.0);
            }
            assert(has_key(s2, newest.0));
            let nw2 = WindowWrapper { current_state: cs, toc: w_toc, ..s2[index_of(s2, newest.0)].1 };
            lemma_refile(s2, newest.0, nw2);
        }
    }
}

/// Moving a window of the current workspace to workspace `ws` takes it out
/// of the current workspace and files it in `ws`, on the monitor chosen for
/// `ws`.
pub proof fn law_move_to_ws_moves(old: State, new: State, cfg: Config, w: Window, ws: u32)
    requires
        sound(old, cfg),
        can_move_to_ws(old, w, ws),
        moved_to_ws(old, new, cfg, w, ws),
    ensures
        ({
            let t = target_monitor(old, ws);
            let cur = old.current_monitor;
            let cw = old.cur_mon().current_ws;
            &&& new.mons()[t].wss().contains_key(ws)
            &&& new.mons()[t].wss()[ws].has_window(w)
            &&& new.mons()[cur].wss().contains_key(cw)
            &&& !new.mons()[cur].wss()[cw].has_window(w)
        }),
{
    let cur = old.current_monitor;
    let m = old.cur_mon();
    let c = m.cur();
    let ww = c.client(w);
    let s = c.entries();
    let i = index_of(s, w);
    let rest = s.remove(i);
    assert(!has_key(rest, w)) by {
        if has_key(rest, w) {
            let j = choose|j: int| 0 <= j < rest.len() && rest[j].0 == w;
            let jj = if j < i { j } else { j + 1 };
            assert(s[jj] == rest[j]);
        }
    }
    let t = target_monitor(old, ws);
    let tm = old.mons()[t];
    assert(old.mons().contains_key(t)) by {
        match crate::wm::unique_mon_with_ws(old, ws) {
            Some(id) => {
                let st = crate::wm::mons_with_ws(old, ws);
                assert(st.contains(id));
            },
            None => {},
        }
    }
    if ws == tm.current_ws {
        let tc = tm.cur();
        let ins = insert_entry(tc.entries(), w, ww);
        law_client_after_add(tc, w, ww);
        lemma_sort_contents(ins);
        assert(keys_unique(ins)) by {
            let e = tc.entries();
            if has_key(e, w) {
                let k = index_of(e, w);
                assert forall|a: int, b: int| 0 <= a < ins.len() && 0 <= b < ins.len() && a != b implies ins[a].0 != ins[b].0 by {
                    if a != k && b != k {
                        assert(ins[a] == e[a] && ins[b] == e[b]);
                    } else if a == k {
                        assert(ins[b] == e[b]);
                    } else {
                        assert(ins[a] == e[a]);
                    }
                }
            } else {
                assert forall|a: int, b: int| 0 <= a < ins.len() && 0 <= b < ins.len() && a != b implies ins[a].0 != ins[b].0 by {
                    if a < e.len() && b < e.len() {
                        assert(ins[a] == e[a] && ins[b] == e[b]);
                    } else if a < e.len() {
                        assert(ins[a] == e[a]);
                    } else {
                        assert(ins[b] == e[b]);
                    }
                }
            }
        }
        let s0 = sort_by_toc(ins);
        let rects = crate::layout::spec_place_window(tc.current_tag, cfg, tm.screen, tm.dock_area, w, tc.windows());
        lemma_place_moved_keys(s0, rects, w, ww.toc, crate::wm::moved_state(tc.current_tag, rects.len() as int));
    } else if tm.wss().contains_key(ws) {
        let tw = tm.wss()[ws];
        let ins = insert_entry(tw.entries(), w, ww);
        law_client_after_add(tw, w, ww);
        lemma_sort_contents(ins);
        assert(keys_unique(ins)) by {
            let e = tw.entries();
            if has_key(e, w) {
                let k = index_of(e, w);
                assert forall|a: int, b: int| 0 <= a < ins.len() && 0 <= b < ins.len() && a != b implies ins[a].0 != ins[b].0 by {
                    if a != k && b != k {
                        assert(ins[a] == e[a] && ins[b] == e[b]);
                    } else if a == k {
                        assert(ins[b] == e[b]);
                    } else {
                        assert(ins[a] == e[a]);
                    }
                }
            } else {
                assert forall|a: int, b: int| 0 <= a < ins.len() && 0 <= b < ins.len() && a != b implies ins[a].0 != ins[b].0 by {
                    if a < e.len() && b < e.len() {
                        assert(ins[a] == e[a] && ins[b] == e[b]);
                    } else if a < e.len() {
                        assert(ins[a] == e[a]);
                    } else {
                        assert(ins[b] == e[b]);
                    }
                }
            }
        }
        let s0 = sort_by_toc(ins);
        let tag = tw.current_tag;
        let rects = crate::layout::spec_place_window(tag, cfg, tm.screen, tm.dock_area, w, crate::models::client_map::wrappers(s0));
        lemma_place_moved_keys(s0, rects, w, ww.toc, crate::wm::moved_state(tag, rects.len() as int));
    } else {
        let tag = cfg.default_layout;
        let rects = crate::layout::spec_place_window(tag, cfg, m.screen, m.dock_area, w, Seq::empty());
        assert(!crate::layout::column_master::has_tiled(Seq::<WindowWrapper>::empty()));
        assert(rects.len() == 1);
        assert(rects.drop_last() =~= Seq::<(Window, Rect)>::empty());
        let cs = crate::wm::moved_state(tag, rects.len() as int);
        let r = rects.last();
        assert(r.0 == w);
        assert(added_entries(rects.drop_last(), ww, cs) == Seq::<Entry>::empty());
        let nw = WindowWrapper { restore_position: r.1.pos(), previous_state: WindowState::Free, current_state: cs, window_rect: r.1, ..ww };
        let ins = insert_entry(Seq::<Entry>::empty(), r.0, nw);
        lemma_sort_contents(ins);
        assert(ins[0] == (w, nw));
        assert(ins.contains((w, nw)));
        let e = sort_by_toc(ins);
        assert(e == added_entries(rects, ww, cs));
        let k = choose|k: int| 0 <= k < e.len() && e[k] == (w, nw);
        assert(has_key(e, w));
    }
}

/// Handing out the rectangles of a mapping keeps every window filed, each
/// once, and files the new window when the rectangles name it.
proof fn lemma_map_placed_keys(s: Seq<Entry>, rects: Seq<(Window, Rect)>, new: Window, t: u64, maxed: bool)
    requires
        keys_unique(s),
    ensures
        keys_unique(map_placed(s, rects, new, t, maxed)),
        forall|k: Window| #[trigger] has_key(s, k) ==> has_key(map_placed(s, rects, new, t, maxed), k),
        names(rects, new) ==> has_key(map_placed(s, rects, new, t, maxed), new),
    decreases rects.len(),
{
    if rects.len() > 0 {
        let front = rects.drop_last();
        lemma_map_placed_keys(s, front, new, t, maxed);
        let s1 = map_placed(s, front, new, t, maxed);
        let win = rects.last().0;
        let rect = rects.last().1;
        if has_key(s1, win) {
            let ww = s1[index_of(s1, win)].1;
            let nw = if ww.current_state == WindowState::Maximized || ww.current_state == WindowState::Monocle {
                WindowWrapper { window_rect: rect, previous_state: ww.current_state, current_state: WindowState::Free, ..ww }
            } else {
                WindowWrapper { window_rect: rect, current_state: WindowState::Free, ..ww }
            };
            lemma_refile(s1, win, nw);
        } else if win == new {
            let nw = mapped_wrapper(win, rect, t, maxed);
            let ins = insert_entry(s1, win, nw);
            assert(ins == s1.push((win, nw)));
            assert(keys_unique(ins)) by {
                assert forall|a: int, b: int| 0 <= a < ins.len() && 0 <= b < ins.len() && a != b implies ins[a].0 != ins[b].0 by {
                    if a < s1.len() && b < s1.len() {
                        assert(ins[a] == s1[a] && ins[b] == s1[b]);
                    } else if a < s1.len() {
                        assert(ins[a] == s1[a]);
                    } else {
                        assert(ins[b] == s1[b]);
                    }
                }
            }
            lemma_sort_contents(ins);
            let r = sort_by_toc(ins);
            assert forall|k: Window| #[trigger] has_key(s1, k) implies has_key(r, k) by {
                let j = choose|j: int| 0 <= j < s1.len() && s1[j].0 == k;
                assert(ins[j] == s1[j]);
                assert(ins.contains(s1[j]));
                let q = choose|q: int| 0 <= q < r.len() && r[q] == s1[j];
                assert(r[q].0 == k);
            }
            assert(ins[ins.len() - 1] == (win, nw));
            assert(ins.contains((win, nw)));
            let q = choose|q: int| 0 <= q < r.len() && r[q] == (win, nw);
            assert(r[q].0 == new);
        }
        if names(rects, new) && !names(front, new) {
            let j = choose|j: int| 0 <= j < rects.len() && rects[j].0 == new;
            if j < front.len() {
                assert(front[j].0 == new);
            }
            assert(win == new);
        }
    }
}

/// A window that asks to be managed, that is neither transient nor a dock
/// nor a child of a managed window, and that the workspace shown does not
/// hold yet, is filed there and takes the focus.
pub proof fn law_mapped_window_is_managed(
    old: State,
    new: State,
    cfg: Config,
    ev: MapRequest,
    t: u64,
    acts: Seq<Action>,
    new_acts: Seq<Action>,
)
    requires
        sound(old, cfg),
        mapped(old, new, cfg, ev, t, acts, new_acts),
        !is_transient(ev),
        !is_dock(ev),
        ev.should_be_managed,
        !old.cur_mon().holds(ev.parent),
        !old.cur_mon().cur().has_window(ev.win),
    ensures
        new.focus_w == ev.win,
        new.cur_mon().cur().has_window(ev.win),
        new.cur_mon().cur().focus_w == ev.win,
{
    let m = old.cur_mon();
    let c = m.cur();
    let rects = crate::layout::spec_place_window(c.current_tag, cfg, m.screen, m.dock_area, ev.win, c.windows());
    let maxed = rects.len() == 1 && c.current_tag != LayoutTag::Floating;
    assert(old.mons().contains_key(old.current_monitor));
    assert(names(rects, ev.win)) by {
        if c.current_tag == LayoutTag::Floating {
            assert(rects[0].0 == ev.win);
        } else if !crate::layout::column_master::has_tiled(c.windows()) {
            assert(rects[0].0 == ev.win);
        } else {
            assert(rects[rects.len() - 1].0 == ev.win);
        }
    }
    lemma_map_placed_keys(c.entries(), rects, ev.win, t, maxed);
}

/// `b` starts with `a`.
pub open spec fn extends(b: Seq<Action>, a: Seq<Action>) -> bool {
    &&& a.len() <= b.len()
    &&& forall|i: int| 0 <= i < a.len() ==> b[i] == a[i]
}

/// The effects of one client only follow those before.
proof fn lemma_client_appended_extends(a: Seq<Action>, prev: State, state: State, cfg: Config, ww: WindowWrapper, n: int)
    ensures
        extends(client_appended(a, prev, state, cfg, ww, n), a),
{
    let w = ww.window;
    assert(extends(focus_appended(a, state, w, ww), a));
    let pe = prev.client_entries();
    if has_key(pe, w) {
        let c = pe[index_of(pe, w)].1;
        let a1 = if w == state.focus_w && w != prev.focus_w {
            focus_appended(a, state, w, ww).push(Action::Flush)
        } else {
            a
        };
        assert(extends(a1, a));
        let pos = ww.window_rect.pos();
        let size = ww.window_rect.sz();
        let a2 = if w != state.focus_w { a1.push(Action::UnsetFocus(w, size)) } else { a1 };
        let a3 = if c.window_rect.pos() != pos { a2.push(Action::MoveWindow(w, pos)) } else { a2 };
        let a4 = if c.window_rect.sz() != size { a3.push(Action::ResizeWindow(w, size)) } else { a3 };
        let a5 = if ww.is_trans { a4.push(Action::RaiseWindow(w)) } else { a4 };
        let a6 = if ww.hidden { a5.push(Action::MoveWindow(w, state.hide_space)) } else { a5.push(Action::MoveWindow(w, pos)) };
        assert(extends(a6, a));
        assert(extends(focus_appended(a6, state, w, ww), a6));
        assert(extends(focus_appended(a6.push(Action::CenterCursor(w)), state, w, ww), a6));
        let bordered = if n > 1 {
            a6.push(Action::SetBorderWidth(w, cfg.border_width)).push(Action::SetBorderColor(w, cfg.background_color))
        } else {
            a6
        };
        assert(extends(focus_appended(bordered, state, w, ww), a6));
        assert(extends(state_change_appended(a6, cfg, state, w, ww, n), a6));
        assert(extends(known_appended(a, prev, state, cfg, ww, c, n), a));
    }
}

/// The effects of the clients only follow those before.
proof fn lemma_clients_appended_extends(a: Seq<Action>, prev: State, state: State, cfg: Config, es: Seq<Entry>, n: int)
    ensures
        extends(clients_appended(a, prev, state, cfg, es, n), a),
    decreases es.len(),
{
    if es.len() > 0 {
        lemma_clients_appended_extends(a, prev, state, cfg, es.drop_last(), n);
        lemma_client_appended_extends(clients_appended(a, prev, state, cfg, es.drop_last(), n), prev, state, cfg, es.last().1, n);
    }
}

/// Among the effects of the clients `es` is the mapping of each client
/// that the previous state did not have.
proof fn lemma_clients_map_new(a: Seq<Action>, prev: State, state: State, cfg: Config, es: Seq<Entry>, n: int, i: int)
    requires
        0 <= i < es.len(),
        !has_key(prev.client_entries(), es[i].1.window),
    ensures
        clients_appended(a, prev, state, cfg, es, n).contains(Action::MapWindow(es[i].1.window)),
    decreases es.len(),
{
    let front = es.drop_last();
    let inner = clients_appended(a, prev, state, cfg, front, n);
    let r = clients_appended(a, prev, state, cfg, es, n);
    lemma_client_appended_extends(inner, prev, state, cfg, es.last().1, n);
    if i < es.len() - 1 {
        assert(front[i] == es[i]);
        lemma_clients_map_new(a, prev, state, cfg, front, n, i);
        let k = choose|k: int| 0 <= k < inner.len() && inner[k] == Action::MapWindow(es[i].1.window);
        assert(r[k] == inner[k]);
    } else {
        let ww = es.last().1;
        let w = ww.window;
        let base = inner.push(Action::AddToSaveSet(w)).push(Action::AddToRootNetClientList(w)).push(Action::SetBorderWidth(w, 0)).push(
            Action::SetBorderColor(w, cfg.background_color),
        ).push(Action::MoveWindow(w, ww.window_rect.pos())).push(Action::ResizeWindow(w, ww.window_rect.sz())).push(
            Action::SubscribeToEvents(w),
        ).push(Action::MapWindow(w));
        assert(extends(focus_appended(base, state, w, ww), base));
        assert(r[base.len() - 1] == base[base.len() - 1]);
    }
}

/// Every client of the workspace shown on the current monitor that the
/// previous state did not have is mapped.
pub proof fn law_new_client_mapped(acts: Seq<Action>, prev: State, state: State, cfg: Config, i: int)
    requires
        0 <= i < state.client_entries().len(),
        !has_key(prev.client_entries(), state.client_entries()[i].1.window),
    ensures
        reacted(acts, prev, state, cfg).contains(Action::MapWindow(state.client_entries()[i].1.window)),
{
    let es = state.client_entries();
    lemma_clients_map_new(monitor_appended(acts, prev, state), prev, state, cfg, es, es.len() as int, i);
}

/// Giving windows their rectangles keeps the windows that are filed, and
/// each once.
proof fn lemma_apply_rects_keys(s: Seq<Entry>, rects: Seq<(Window, Rect)>, cs: WindowState)
    requires
        keys_unique(s),
    ensures
        keys_unique(apply_rects(s, rects, cs)),
        forall|k: Window| #[trigger] has_key(apply_rects(s, rects, cs), k) <==> has_key(s, k),
    decreases rects.len(),
{
    if rects.len() > 0 {
        let s1 = apply_rects(s, rects.drop_last(), cs);
        lemma_apply_rects_keys(s, rects.drop_last(), cs);
        let win = rects.last().0;
        let ww = s1[index_of(s1, win)].1;
        let nw = WindowWrapper { window_rect: rects.last().1, current_state: cs, ..ww };
        let s2 = apply_rects(s, rects, cs);
        assert(s2 == swapped(s1, win, nw));
        if has_key(s1, win) {
            lemma_refile(s1, win, nw);
        }
        assert forall|k: Window| #[trigger] has_key(s2, k) <==> has_key(s, k) by {
            assert(has_key(s1, k) <==> has_key(s, k));
        }
    }
}

/// Arranging the current workspace anew, where its layout can, keeps the
/// monitors, the workspace each shows and the windows of those workspaces.
proof fn lemma_reordered_keeps_windows(old: State, new: State, cfg: Config, id: u32)
    requires
        sound(old, cfg),
        old.mons().contains_key(id),
        reordered_if_safe(old, new, cfg),
    ensures
        new.current_monitor == old.current_monitor,
        new.mons().contains_key(id),
        new.mons()[id].current_ws == old.mons()[id].current_ws,
        forall|k: Window| #[trigger] new.mons()[id].cur().has_window(k) <==> old.mons()[id].cur().has_window(k),
{
    if reorder_safe(old) {
        let r = choose|r: Option<()>| reordered(old, new, cfg, r);
        if old.has_current() && old.cur_mon().has_current() && old.focus_w != old.root && id == old.current_monitor {
            let m = old.cur_mon();
            let ws = m.cur();
            let rects = spec_reorder(ws.current_tag, cfg, m.screen, m.dock_area, ws.windows());
            lemma_apply_rects_keys(ws.entries(), rects, arranged_state(ws.current_tag, rects.len() as int));
        }
    }
}

/// A window of the workspace shown on the current monitor that is
/// destroyed leaves that workspace, which keeps its other windows and stays
/// shown.
pub proof fn law_destroyed_window_leaves(old: State, new: State, cfg: Config, win: Window)
    requires
        sound(old, cfg),
        destroyed(old, new, cfg, win),
        win != old.root,
        old.cur_mon().cur().has_window(win),
    ensures
        new.current_monitor == old.current_monitor,
        new.cur_mon().current_ws == old.cur_mon().current_ws,
        !new.cur_mon().cur().has_window(win),
        forall|k: Window| k != win ==> (#[trigger] new.cur_mon().cur().has_window(k) <==> old.cur_mon().cur().has_window(k)),
{
    let m = old.cur_mon();
    let c = m.cur();
    assert(m.wss().contains_key(m.current_ws) && m.wss()[m.current_ws].has_window(win));
    assert(m.holds(win));
    let f = next_focus(m, win, old.root);
    let mid = choose|mid: State|
        #![trigger sound(mid, cfg)]
        {
            &&& dropped(old, mid, old.current_monitor, win, f)
            &&& sound(mid, cfg)
            &&& c.current_tag != LayoutTag::Floating ==> reordered_if_safe(mid, new, cfg)
            &&& c.current_tag == LayoutTag::Floating ==> new == mid
        };
    lemma_removed_keys(c.entries(), win);
    if c.current_tag != LayoutTag::Floating {
        lemma_reordered_keeps_windows(mid, new, cfg, old.current_monitor);
    }
}

/// A window that is unmapped, that is not being destroyed, and that the
/// workspace shown on its monitor holds, leaves that workspace, which keeps
/// its other windows and stays shown.
pub proof fn law_unmapped_window_leaves(old: State, new: State, cfg: Config, win: Window)
    requires
        sound(old, cfg),
        unmapped(old, new, cfg, win),
        old.mons()[window_monitor(old, win)].cur().has_window(win),
        old.mons()[window_monitor(old, win)].cur().client(win).current_state != WindowState::Destroy,
    ensures
        ({
            let id = window_monitor(old, win);
            &&& new.mons().contains_key(id)
            &&& new.mons()[id].current_ws == old.mons()[id].current_ws
            &&& !new.mons()[id].cur().has_window(win)
            &&& forall|k: Window| k != win ==> (#[trigger] new.mons()[id].cur().has_window(k) <==> old.mons()[id].cur().has_window(k))
        }),
{
    let id = window_monitor(old, win);
    let m = old.mons()[id];
    let c = m.cur();
    lemma_window_monitor_known(old, win);
    let mid = choose|mid: State|
        #![trigger sound(mid, cfg)]
        {
            &&& dropped(old, mid, id, win, next_focus(m, win, old.root))
            &&& sound(mid, cfg)
            &&& c.current_tag != LayoutTag::Floating ==> reordered_if_safe(mid, new, cfg)
            &&& c.current_tag == LayoutTag::Floating ==> new == mid
        };
    lemma_removed_keys(c.entries(), win);
    if c.current_tag != LayoutTag::Floating {
        lemma_reordered_keeps_windows(mid, new, cfg, id);
    }
}

/// The monitor that `window_monitor` names is one of the state's.
proof fn lemma_window_monitor_known(state: State, win: Window)
    requires
        state.has_current(),
    ensures
        state.mons().contains_key(window_monitor(state, win)),
{
    match unique_mon_with_window(state, win) {
        Some(id) => {
            assert(mons_with_window(state, win).contains(id));
        },
        None => {},
    }
}

/// Taking out the entry of `win` leaves every other window filed, and not
/// `win`.
proof fn lemma_removed_keys(s: Seq<Entry>, win: Window)
    requires
        keys_unique(s),
        has_key(s, win),
    ensures
        !has_key(s.remove(index_of(s, win)), win),
        forall|k: Window| k != win ==> (#[trigger] has_key(s.remove(index_of(s, win)), k) <==> has_key(s, k)),
{
    let i = index_of(s, win);
    let r = s.remove(i);
    assert(!has_key(r, win)) by {
        if has_key(r, win) {
            let j = choose|j: int| 0 <= j < r.len() && r[j].0 == win;
            let jj = if j < i { j } else { j + 1 };
            assert(s[jj] == r[j]);
        }
    }
    assert forall|k: Window| k != win implies (#[trigger] has_key(r, k) <==> has_key(s, k)) by {
        if has_key(r, k) {
            let j = choose|j: int| 0 <= j < r.len() && r[j].0 == k;
            let jj = if j < i { j } else { j + 1 };
            assert(s[jj] == r[j]);
        }
        if has_key(s, k) {
            let j = choose|j: int| 0 <= j < s.len() && s[j].0 == k;
            assert(j != i);
            let jj = if j < i { j } else { j - 1 };
            assert(r[jj] == s[j]);
        }
    }
}

} // verus!

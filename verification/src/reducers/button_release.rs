//! A pointer button is released.
use vstd::prelude::*;
use crate::config::Config;
use crate::geometry::{MonitorId, Rect, Window};
use crate::layout::spec_place_window;
use crate::models::client_map::{has_key, index_of, insert_entry, sort_by_toc, swapped, Entry};
use crate::models::workspace::Workspace;
use crate::models::windowwrapper::WindowWrapper;
use crate::models::WindowState;
use crate::reducers::shown_ws_updated;
use crate::state::State;
use crate::wm::{get_mon_by_window, placed_rects, same_but_monitors, sound, unique_mon_with_window};

verus! {

/// The clients `s` when the layout gives `rect` to `win`, the window `w`
/// being dropped with the wrapper `ww`: `w` is filed with its rectangle,
/// another window filed already takes its rectangle; both take the state
/// `cs`.
pub open spec fn drop_step(s: Seq<Entry>, win: Window, rect: Rect, w: Window, ww: WindowWrapper, cs: WindowState) -> Seq<Entry> {
    if win == w {
        sort_by_toc(insert_entry(s, w, WindowWrapper { window_rect: rect, current_state: cs, ..ww }))
    } else if has_key(s, win) {
        let old = s[index_of(s, win)].1;
        swapped(s, win, WindowWrapper { window_rect: rect, current_state: cs, ..old })
    } else {
        s
    }
}

/// The clients `s` after each rectangle of `rects` was handed out, in order.
pub open spec fn drop_placed(s: Seq<Entry>, rects: Seq<(Window, Rect)>, w: Window, ww: WindowWrapper, cs: WindowState) -> Seq<Entry>
    decreases rects.len(),
{
    if rects.len() == 0 {
        s
    } else {
        drop_step(drop_placed(s, rects.drop_last(), w, ww, cs), rects.last().0, rects.last().1, w, ww, cs)
    }
}

/// What releasing the button over window `w` does: a window that the
/// monitor that alone holds it shows, when that monitor is not the current
/// one, moves to the workspace shown on the current monitor, whose layout
/// places it as a new window (maximized when alone there, else free), and
/// takes the focus.  Nothing happens when no monitor alone holds `w`, or
/// when that monitor does not show it.
pub open spec fn released(old: State, new: State, cfg: Config, w: Window) -> bool {
    let cur = old.current_monitor;
    let m = old.cur_mon();
    let c = m.cur();
    match unique_mon_with_window(old, w) {
        Some(from) => {
            let om = old.mons()[from];
            if from == cur || !om.cur().has_window(w) {
                new == old
            } else {
                let ww = om.cur().client(w);
                let rects = spec_place_window(c.current_tag, cfg, m.screen, m.dock_area, w, c.windows());
                let cs = if rects.len() == 1 { WindowState::Maximized } else { WindowState::Free };
                &&& same_but_monitors(old, new)
                &&& new.focus_w == w
                &&& new.current_monitor == cur
                &&& new.mons().dom() == old.mons().dom()
                &&& forall|k: MonitorId| #[trigger] new.mons().contains_key(k) && k != cur && k != from ==> new.mons()[k] == old.mons()[k]
                &&& shown_ws_updated(om, new.mons()[from], om.cur().entries().remove(index_of(om.cur().entries(), w)), om.cur().focus_w)
                &&& shown_ws_updated(m, new.mons()[cur], drop_placed(c.entries(), rects, w, ww, cs), w)
            }
        },
        None => new == old,
    }
}

/// Hands out the rectangles of `rects` in workspace `wsv`; see
/// `drop_placed`.
fn drop_placed_windows(wsv: &mut Workspace, rects: &Vec<(Window, Rect)>, w: Window, ww: WindowWrapper, cs: WindowState)
    requires
        old(wsv).wf(),
        !old(wsv).has_window(w),
    ensures
        final(wsv).wf(),
        final(wsv).tag == old(wsv).tag,
        final(wsv).focus_w == old(wsv).focus_w,
        final(wsv).current_tag == old(wsv).current_tag,
        final(wsv).entries() == drop_placed(old(wsv).entries(), rects@, w, ww, cs),
        final(wsv).entries().len() <= old(wsv).entries().len() + 1,
{
    let mut i: usize = 0;
    while i < rects.len()
        invariant
            i <= rects@.len(),
            wsv.wf(),
            wsv.tag == old(wsv).tag,
            wsv.focus_w == old(wsv).focus_w,
            wsv.current_tag == old(wsv).current_tag,
            wsv.entries() == drop_placed(old(wsv).entries(), rects@.take(i as int), w, ww, cs),
            !wsv.has_window(w) ==> wsv.entries().len() <= old(wsv).entries().len(),
            wsv.has_window(w) ==> wsv.entries().len() <= old(wsv).entries().len() + 1,
        decreases rects@.len() - i,
    {
        let (win, rect) = rects[i];
        proof {
            assert(rects@.take(i as int + 1).drop_last() =~= rects@.take(i as int));
        }
        let ghost before = wsv.entries();
        if win == w {
            let nw = WindowWrapper { window_rect: rect, current_state: cs, ..ww };
            wsv.add_window(w, nw);
            proof {
                crate::models::client_map::lemma_sort_contents(insert_entry(before, w, nw));
                let ins = insert_entry(before, w, nw);
                assert(ins.contains((w, nw))) by {
                    if has_key(before, w) {
                        assert(ins[index_of(before, w)] == (w, nw));
                    } else {
                        assert(ins[ins.len() - 1] == (w, nw));
                    }
                }
                let e = wsv.entries();
                let k = choose|k: int| 0 <= k < e.len() && e[k] == (w, nw);
                assert(has_key(e, w));
            }
        } else {
            match wsv.get_client(win) {
                Some(cur) => {
                    let nw = WindowWrapper { window_rect: rect, current_state: cs, ..cur };
                    let _ = wsv.replace_window(win, nw);
                    proof {
                        crate::models::client_map::lemma_refile(before, win, nw);
                    }
                },
                None => {},
            }
        }
        i = i + 1;
    }
    proof {
        assert(rects@.take(rects@.len() as int) =~= rects@);
    }
}

/// Answers the release of a button over window `w`; see `released`.
pub fn button_release(state: &mut State, cfg: &Config, w: Window)
    requires
        sound(*old(state), *cfg),
    ensures
        sound(*final(state), *cfg),
        released(*old(state), *final(state), *cfg, w),
{
    broadcast use vstd::std_specs::hash::group_hash_axioms;

    let found = get_mon_by_window(state, w);
    proof {
        let s = crate::wm::mons_with_window(*old(state), w);
        match found {
            Some(id) => {
                let c = choose|c: MonitorId| s.contains(c) && forall|j: MonitorId| s.contains(j) ==> j == c;
                assert(c == id);
            },
            None => {
                if exists|id: MonitorId| s.contains(id) && forall|j: MonitorId| s.contains(j) ==> j == id {
                    let id = choose|id: MonitorId| s.contains(id) && forall|j: MonitorId| s.contains(j) ==> j == id;
                    let j = choose|j: MonitorId| s.contains(j) && j != id;
                    assert(false);
                }
            },
        }
    }
    let from = match found {
        Some(id) => id,
        None => return,
    };
    let cur = state.current_monitor;
    if from == cur {
        return;
    }
    let ww = match state.monitors.get(&from).unwrap().get_client(w) {
        Some(ww) => ww,
        None => return,
    };
    proof {
        assert(crate::wm::mons_with_window(*old(state), w).contains(from));
        if old(state).cur_mon().cur().has_window(w) {
            assert(old(state).cur_mon().holds(w));
            assert(crate::wm::mons_with_window(*old(state), w).contains(cur));
        }
    }
    let mut m1 = state.take_monitor(from).unwrap();
    let ghost om = m1;
    let _ = m1.remove_window(w);
    state.put_monitor(m1);
    let ghost s1 = *state;
    proof {
        assert(s1.mons().dom() =~= old(state).mons().dom());
        crate::reducers::lemma_mon_update_sound(
            *old(state),
            s1,
            *cfg,
            from,
            om.cur().entries().remove(index_of(om.cur().entries(), w)),
            om.cur().focus_w,
        );
    }
    let mut m2 = state.take_monitor(cur).unwrap();
    let ghost m = m2;
    let cw = m2.current_ws;
    let mut wsv = m2.remove_ws(cw).unwrap();
    let rects = placed_rects(&wsv, cfg, &m2.screen, &m2.dock_area, w);
    let cs = if rects.len() == 1 {
        WindowState::Maximized
    } else {
        WindowState::Free
    };
    drop_placed_windows(&mut wsv, &rects, w, ww, cs);
    wsv.focus_w = w;
    m2.add_ws(wsv);
    state.put_monitor(m2);
    state.focus_w = w;
    proof {
        let new = *final(state);
        assert(new.mons().dom() =~= old(state).mons().dom());
        crate::reducers::lemma_mon_update_sound(
            s1,
            State { focus_w: s1.focus_w, ..new },
            *cfg,
            cur,
            drop_placed(m.cur().entries(), rects@, w, ww, cs),
            w,
        );
    }
}

} // verus!

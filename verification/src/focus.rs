//! How the focus moves between windows, and what the X server is told of it.
use vstd::prelude::*;
use crate::action::Action;
use crate::config::Config;
use crate::layout::LayoutTag;
use crate::models::client_map::{has_key, index_of, keys_unique, Entry};
use crate::models::Direction;
use crate::reactor::{clients_appended, focus_appended, known_appended, reacted, state_change_appended};
use crate::reducers::key_press::window_shifted;
use crate::state::State;
use crate::wm::sound;

verus! {

/// Each client is filed under the window its wrapper names.
pub open spec fn filed_by_window(e: Seq<Entry>) -> bool {
    forall|i: int| 0 <= i < e.len() ==> (#[trigger] e[i]).1.window == e[i].0
}

/// In a tiling workspace whose focus is not on its newest window,
/// `ShiftWindow(North)` (Mod+Up) moves the focus to the window filed just
/// before the focused one, and `ShiftWindow(South)` (Mod+Down) to the
/// window filed just after it, for a focused window that has such a
/// neighbour (and, going south, is not one of the last two).
pub proof fn law_tiled_focus_follows_order(old: State, new: State, cfg: Config, dir: Direction, r: Option<()>)
    requires
        sound(old, cfg),
        window_shifted(old, new, cfg, dir, r),
        old.cur_mon().cur().current_tag != LayoutTag::Floating,
        old.cur_mon().cur().has_window(old.focus_w),
        old.cur_mon().cur().focus_w != old.cur_mon().cur().entries().last().0,
        filed_by_window(old.cur_mon().cur().entries()),
    ensures
        ({
            let e = old.cur_mon().cur().entries();
            let k = index_of(e, old.focus_w);
            &&& dir == Direction::North && k > 0 ==> new.focus_w == e[k - 1].0
            &&& dir == Direction::South && k + 2 < e.len() ==> new.focus_w == e[k + 1].0
        }),
{
    let m = old.cur_mon();
    let c = m.cur();
    let e = c.entries();
    let f = old.focus_w;
    let k = index_of(e, f);
    assert(old.mons().contains_key(old.current_monitor));
    assert(m.wf());
    assert(c.wf());
    assert(keys_unique(e));
    assert(e[k].0 == f);
    assert(c.client(f).window == f);
    if dir == Direction::North && k > 0 {
        assert(e.len() > 1);
        assert(e[k - 1].0 != f);
    }
    if dir == Direction::South && k + 2 < e.len() {
        assert(e[k + 1].0 != f);
    }
}

/// The actions that follow `a1` in what `known_appended` gives, once the
/// focus step gave `a1`.
proof fn lemma_known_after_focus(a: Seq<Action>, prev: State, state: State, cfg: Config, ww: crate::models::windowwrapper::WindowWrapper, c: crate::models::windowwrapper::WindowWrapper, n: int)
    requires
        ww.window == state.focus_w,
        ww.window != prev.focus_w,
    ensures
        ({
            let a1 = focus_appended(a, state, ww.window, ww).push(Action::Flush);
            let k = known_appended(a, prev, state, cfg, ww, c, n);
            &&& a1.len() <= k.len()
            &&& forall|i: int| 0 <= i < a1.len() ==> k[i] == a1[i]
        }),
{
    let w = ww.window;
    let pos = ww.window_rect.pos();
    let size = ww.window_rect.sz();
    let a1 = focus_appended(a, state, w, ww).push(Action::Flush);
    let a3 = if c.window_rect.pos() != pos { a1.push(Action::MoveWindow(w, pos)) } else { a1 };
    let a4 = if c.window_rect.sz() != size { a3.push(Action::ResizeWindow(w, size)) } else { a3 };
    let a5 = if ww.is_trans { a4.push(Action::RaiseWindow(w)) } else { a4 };
    let a6 = if ww.hidden { a5.push(Action::MoveWindow(w, state.hide_space)) } else { a5.push(Action::MoveWindow(w, pos)) };
    assert(forall|i: int| 0 <= i < a1.len() ==> a6[i] == a1[i]);
    let a7 = if c.current_state != ww.current_state { state_change_appended(a6, cfg, state, w, ww, n) } else { a6 };
    let bordered = if n > 1 {
        a6.push(Action::SetBorderWidth(w, cfg.border_width)).push(Action::SetBorderColor(w, cfg.background_color))
    } else {
        a6
    };
    assert(forall|i: int| 0 <= i < a6.len() ==> focus_appended(bordered, state, w, ww)[i] == a6[i]);
    assert(forall|i: int| 0 <= i < a6.len() ==> focus_appended(a6.push(Action::CenterCursor(w)), state, w, ww)[i] == a6[i]);
    assert(a6.len() <= a7.len() && forall|i: int| 0 <= i < a6.len() ==> a7[i] == a6[i]);
    let k = known_appended(a, prev, state, cfg, ww, c, n);
    assert(a7.len() <= k.len() && forall|i: int| 0 <= i < a7.len() ==> k[i] == a7[i]);
}

/// What the clients `es` call for keeps what came before.
proof fn lemma_clients_keep(a: Seq<Action>, prev: State, state: State, cfg: Config, es: Seq<Entry>, n: int)
    ensures
        a.len() <= clients_appended(a, prev, state, cfg, es, n).len(),
        forall|i: int| 0 <= i < a.len() ==> clients_appended(a, prev, state, cfg, es, n)[i] == a[i],
    decreases es.len(),
{
    if es.len() > 0 {
        let inner = clients_appended(a, prev, state, cfg, es.drop_last(), n);
        lemma_clients_keep(a, prev, state, cfg, es.drop_last(), n);
        lemma_client_keeps(inner, prev, state, cfg, es.last().1, n);
    }
}

/// What one client calls for keeps what came before.
proof fn lemma_client_keeps(a: Seq<Action>, prev: State, state: State, cfg: Config, ww: crate::models::windowwrapper::WindowWrapper, n: int)
    ensures
        a.len() <= crate::reactor::client_appended(a, prev, state, cfg, ww, n).len(),
        forall|i: int| 0 <= i < a.len() ==> crate::reactor::client_appended(a, prev, state, cfg, ww, n)[i] == a[i],
{
    let w = ww.window;
    let pe = prev.client_entries();
    if has_key(pe, w) {
        let c = pe[index_of(pe, w)].1;
        let pos = ww.window_rect.pos();
        let size = ww.window_rect.sz();
        let a1 = if w == state.focus_w && w != prev.focus_w {
            focus_appended(a, state, w, ww).push(Action::Flush)
        } else {
            a
        };
        let a2 = if w != state.focus_w { a1.push(Action::UnsetFocus(w, size)) } else { a1 };
        let a3 = if c.window_rect.pos() != pos { a2.push(Action::MoveWindow(w, pos)) } else { a2 };
        let a4 = if c.window_rect.sz() != size { a3.push(Action::ResizeWindow(w, size)) } else { a3 };
        let a5 = if ww.is_trans { a4.push(Action::RaiseWindow(w)) } else { a4 };
        let a6 = if ww.hidden { a5.push(Action::MoveWindow(w, state.hide_space)) } else { a5.push(Action::MoveWindow(w, pos)) };
        assert(forall|i: int| 0 <= i < a.len() ==> a6[i] == a[i]);
        let a7 = if c.current_state != ww.current_state { state_change_appended(a6, cfg, state, w, ww, n) } else { a6 };
        let bordered = if n > 1 {
            a6.push(Action::SetBorderWidth(w, cfg.border_width)).push(Action::SetBorderColor(w, cfg.background_color))
        } else {
            a6
        };
        assert(forall|i: int| 0 <= i < a6.len() ==> focus_appended(bordered, state, w, ww)[i] == a6[i]);
        assert(forall|i: int| 0 <= i < a6.len() ==> focus_appended(a6.push(Action::CenterCursor(w)), state, w, ww)[i] == a6[i]);
        assert(a6.len() <= a7.len() && forall|i: int| 0 <= i < a6.len() ==> a7[i] == a6[i]);
    } else {
        let base = a.push(Action::AddToSaveSet(w)).push(Action::AddToRootNetClientList(w)).push(Action::SetBorderWidth(w, 0)).push(
            Action::SetBorderColor(w, cfg.background_color),
        ).push(Action::MoveWindow(w, ww.window_rect.pos())).push(Action::ResizeWindow(w, ww.window_rect.sz())).push(
            Action::SubscribeToEvents(w),
        ).push(Action::MapWindow(w));
        assert(forall|i: int| 0 <= i < a.len() ==> base[i] == a[i]);
    }
}

proof fn lemma_clients_focus(a: Seq<Action>, prev: State, state: State, cfg: Config, es: Seq<Entry>, n: int, i: int)
    requires
        0 <= i < es.len(),
        es[i].1.window == state.focus_w,
        es[i].1.window != prev.focus_w,
        es[i].1.window != state.root,
        has_key(prev.client_entries(), es[i].1.window),
    ensures
        exists|b: bool| clients_appended(a, prev, state, cfg, es, n).contains(Action::SetFocus(es[i].1.window, b)),
    decreases es.len(),
{
    let front = es.drop_last();
    let inner = clients_appended(a, prev, state, cfg, front, n);
    let r = clients_appended(a, prev, state, cfg, es, n);
    lemma_client_keeps(inner, prev, state, cfg, es.last().1, n);
    if i < es.len() - 1 {
        assert(front[i] == es[i]);
        lemma_clients_focus(a, prev, state, cfg, front, n, i);
        let b = choose|b: bool| inner.contains(Action::SetFocus(es[i].1.window, b));
        let k = choose|k: int| 0 <= k < inner.len() && inner[k] == Action::SetFocus(es[i].1.window, b);
        assert(r[k] == inner[k]);
    } else {
        let ww = es.last().1;
        let w = ww.window;
        let pe = prev.client_entries();
        let c = pe[index_of(pe, w)].1;
        lemma_known_after_focus(inner, prev, state, cfg, ww, c, n);
        let b = !(ww.current_state == crate::models::WindowState::Monocle || ww.current_state == crate::models::WindowState::Maximized);
        assert(r[inner.len() as int] == Action::SetFocus(w, b));
    }
}

/// When a client that the previous state knew becomes the focused window
/// (and is not the root window), the reactor gives it the input focus.
pub proof fn law_refocused_client_gets_focus(acts: Seq<Action>, prev: State, state: State, cfg: Config, i: int)
    requires
        0 <= i < state.client_entries().len(),
        state.client_entries()[i].1.window == state.focus_w,
        state.focus_w != prev.focus_w,
        state.focus_w != state.root,
        has_key(prev.client_entries(), state.focus_w),
    ensures
        exists|b: bool| reacted(acts, prev, state, cfg).contains(Action::SetFocus(state.focus_w, b)),
{
    let es = state.client_entries();
    let m = crate::reactor::monitor_appended(acts, prev, state);
    lemma_clients_focus(m, prev, state, cfg, es, es.len() as int, i);
    let b = choose|b: bool| clients_appended(m, prev, state, cfg, es, es.len() as int).contains(Action::SetFocus(es[i].1.window, b));
    assert(reacted(acts, prev, state, cfg).contains(Action::SetFocus(state.focus_w, b)));
}

/// The actions that follow the unfocusing of a known client that is not
/// focused in what `known_appended` gives.
proof fn lemma_known_after_unfocus(a: Seq<Action>, prev: State, state: State, cfg: Config, ww: crate::models::windowwrapper::WindowWrapper, c: crate::models::windowwrapper::WindowWrapper, n: int)
    requires
        ww.window != state.focus_w,
    ensures
        ({
            let a2 = a.push(Action::UnsetFocus(ww.window, ww.window_rect.sz()));
            let k = known_appended(a, prev, state, cfg, ww, c, n);
            &&& a2.len() <= k.len()
            &&& forall|i: int| 0 <= i < a2.len() ==> k[i] == a2[i]
        }),
{
    let w = ww.window;
    let pos = ww.window_rect.pos();
    let size = ww.window_rect.sz();
    let a2 = a.push(Action::UnsetFocus(w, size));
    let a3 = if c.window_rect.pos() != pos { a2.push(Action::MoveWindow(w, pos)) } else { a2 };
    let a4 = if c.window_rect.sz() != size { a3.push(Action::ResizeWindow(w, size)) } else { a3 };
    let a5 = if ww.is_trans { a4.push(Action::RaiseWindow(w)) } else { a4 };
    let a6 = if ww.hidden { a5.push(Action::MoveWindow(w, state.hide_space)) } else { a5.push(Action::MoveWindow(w, pos)) };
    assert(forall|i: int| 0 <= i < a2.len() ==> a6[i] == a2[i]);
    let a7 = if c.current_state != ww.current_state { state_change_appended(a6, cfg, state, w, ww, n) } else { a6 };
    let bordered = if n > 1 {
        a6.push(Action::SetBorderWidth(w, cfg.border_width)).push(Action::SetBorderColor(w, cfg.background_color))
    } else {
        a6
    };
    assert(forall|i: int| 0 <= i < a6.len() ==> focus_appended(bordered, state, w, ww)[i] == a6[i]);
    assert(forall|i: int| 0 <= i < a6.len() ==> focus_appended(a6.push(Action::CenterCursor(w)), state, w, ww)[i] == a6[i]);
    assert(a6.len() <= a7.len() && forall|i: int| 0 <= i < a6.len() ==> a7[i] == a6[i]);
    let k = known_appended(a, prev, state, cfg, ww, c, n);
    assert(a7.len() <= k.len() && forall|i: int| 0 <= i < a7.len() ==> k[i] == a7[i]);
}

proof fn lemma_clients_unfocus(a: Seq<Action>, prev: State, state: State, cfg: Config, es: Seq<Entry>, n: int, i: int)
    requires
        0 <= i < es.len(),
        es[i].1.window != state.focus_w,
        has_key(prev.client_entries(), es[i].1.window),
    ensures
        clients_appended(a, prev, state, cfg, es, n).contains(Action::UnsetFocus(es[i].1.window, es[i].1.window_rect.sz())),
    decreases es.len(),
{
    let front = es.drop_last();
    let inner = clients_appended(a, prev, state, cfg, front, n);
    let r = clients_appended(a, prev, state, cfg, es, n);
    lemma_client_keeps(inner, prev, state, cfg, es.last().1, n);
    if i < es.len() - 1 {
        assert(front[i] == es[i]);
        lemma_clients_unfocus(a, prev, state, cfg, front, n, i);
        let k = choose|k: int| 0 <= k < inner.len() && inner[k] == Action::UnsetFocus(es[i].1.window, es[i].1.window_rect.sz());
        assert(r[k] == inner[k]);
    } else {
        let ww = es.last().1;
        let w = ww.window;
        let pe = prev.client_entries();
        let c = pe[index_of(pe, w)].1;
        lemma_known_after_unfocus(inner, prev, state, cfg, ww, c, n);
        assert(r[inner.len() as int] == Action::UnsetFocus(w, ww.window_rect.sz()));
    }
}

/// Every client of the workspace shown that the previous state knew and
/// that is not the focused window is told it is unfocused.
pub proof fn law_unfocused_clients_unset(acts: Seq<Action>, prev: State, state: State, cfg: Config, i: int)
    requires
        0 <= i < state.client_entries().len(),
        state.client_entries()[i].1.window != state.focus_w,
        has_key(prev.client_entries(), state.client_entries()[i].1.window),
    ensures
        ({
            let ww = state.client_entries()[i].1;
            reacted(acts, prev, state, cfg).contains(Action::UnsetFocus(ww.window, ww.window_rect.sz()))
        }),
{
    let es = state.client_entries();
    lemma_clients_unfocus(crate::reactor::monitor_appended(acts, prev, state), prev, state, cfg, es, es.len() as int, i);
}

} // verus!

//! The window manager's answers to the events of the X server.
//!
//! Each reducer takes the state, the configuration and an event that
//! carries what the X server reported, changes the state, and appends the
//! effects on the X server and the system that the change calls for.
use vstd::prelude::*;
use crate::geometry::Window;
use crate::models::client_map::Entry;
use crate::models::monitor::Monitor;
use crate::state::State;
use crate::config::Config;
use crate::geometry::MonitorId;
use crate::wm::{reorder, reordered, same_but_monitors, same_monitor_frame, sound};
use crate::layout::LayoutTag;
use crate::models::client_map::index_of;
use crate::models::workspace::{next_of, previous_of};

pub mod button_press;
pub mod button_release;
pub mod client_message_request;
pub mod configure_request;
pub mod destroy;
pub mod destroy_notify;
pub mod enter_notify;
pub mod key_press;
pub mod map_request;
pub mod motion_notify;
pub mod unmap_notify;
pub mod update_layout;

verus! {

/// `n` is `m` whose shown workspace has the clients `entries` and the focus
/// on `focus`, all else kept.
pub open spec fn shown_ws_updated(m: Monitor, n: Monitor, entries: Seq<Entry>, focus: Window) -> bool {
    &&& same_monitor_frame(m, n)
    &&& n.wss().dom() == m.wss().dom()
    &&& forall|k: u32| #[trigger] n.wss().contains_key(k) && k != m.current_ws ==> n.wss()[k] == m.wss()[k]
    &&& n.wss()[m.current_ws].tag == m.cur().tag
    &&& n.wss()[m.current_ws].current_tag == m.cur().current_tag
    &&& n.wss()[m.current_ws].focus_w == focus
    &&& n.wss()[m.current_ws].entries() == entries
}

/// `new` is `old` whose current monitor's shown workspace has the clients
/// `entries` and the focus on `focus`; all else is kept.
pub open spec fn shown_now(old: State, new: State, entries: Seq<Entry>, focus: Window) -> bool {
    &&& same_but_monitors(old, new)
    &&& new.focus_w == old.focus_w
    &&& new.current_monitor == old.current_monitor
    &&& new.mons().dom() == old.mons().dom()
    &&& forall|k: MonitorId| #[trigger] new.mons().contains_key(k) && k != old.current_monitor ==> new.mons()[k] == old.mons()[k]
    &&& shown_ws_updated(old.cur_mon(), new.cur_mon(), entries, focus)
}

/// `new` is `old` whose monitor `id` has, in the workspace it shows, the
/// clients `entries` and the focus on `focus`; the other monitors are kept.
pub open spec fn mon_shown_updated(old: State, new: State, id: MonitorId, entries: Seq<Entry>, focus: Window) -> bool {
    &&& new.mons().dom() == old.mons().dom()
    &&& forall|k: MonitorId| #[trigger] new.mons().contains_key(k) && k != id ==> new.mons()[k] == old.mons()[k]
    &&& shown_ws_updated(old.mons()[id], new.mons()[id], entries, focus)
}

/// Changing only the workspace shown on one monitor keeps the state sound.
pub proof fn lemma_mon_update_sound(old: State, new: State, cfg: Config, id: MonitorId, entries: Seq<Entry>, focus: Window)
    requires
        sound(old, cfg),
        same_but_monitors(old, new),
        new.current_monitor == old.current_monitor,
        old.mons().contains_key(id),
        mon_shown_updated(old, new, id, entries, focus),
        new.mons()[id].wf(),
    ensures
        sound(new, cfg),
{
    let m = old.mons()[id];
    assert forall|k: MonitorId| #[trigger] new.mons().contains_key(k) implies new.mons()[k].wf() && new.mons()[k].id == k by {
        assert(old.mons().contains_key(k));
    }
    assert forall|k: MonitorId| #[trigger] new.mons().contains_key(k) implies new.mons()[k].inputs_ok(cfg) by {
        assert(old.mons().contains_key(k));
    }
    assert forall|k: MonitorId| #[trigger] new.mons().contains_key(k) implies new.mons()[k].has_current() by {
        assert(old.mons().contains_key(k));
    }
}

/// Changing only the workspace shown on the current monitor keeps the
/// state sound.
pub proof fn lemma_shown_update_sound(old: State, new: State, cfg: Config, entries: Seq<Entry>, focus: Window)
    requires
        sound(old, cfg),
        same_but_monitors(old, new),
        new.mons().dom() == old.mons().dom(),
        new.current_monitor == old.current_monitor,
        forall|k: MonitorId| #[trigger] new.mons().contains_key(k) && k != old.current_monitor ==> new.mons()[k] == old.mons()[k],
        new.cur_mon().wf(),
        shown_ws_updated(old.cur_mon(), new.cur_mon(), entries, focus),
    ensures
        sound(new, cfg),
{
    lemma_mon_update_sound(old, new, cfg, old.current_monitor, entries, focus);
}

/// The layout of the current workspace may arrange it: a floating layout
/// divides by the number of windows, so it needs one unless the focus is on
/// the root window.
pub open spec fn reorder_safe(state: State) -> bool {
    state.cur_mon().cur().current_tag == LayoutTag::Floating && state.focus_w != state.root
        ==> state.cur_mon().cur().entries().len() > 0
}

/// Tests `reorder_safe`.
pub fn can_reorder(state: &State, cfg: &Config) -> (r: bool)
    requires
        sound(*state, *cfg),
    ensures
        r == reorder_safe(*state),
{
    broadcast use vstd::std_specs::hash::group_hash_axioms;

    let ws = state.monitors.get(&state.current_monitor).unwrap().get_current_ws().unwrap();
    !(ws.get_current_layout() == LayoutTag::Floating && state.focus_w != state.root) || ws.len() > 0
}

/// Arranges the current workspace anew where its layout can: see
/// `reorder_safe`; else nothing happens.
pub open spec fn reordered_if_safe(old: State, new: State, cfg: Config) -> bool {
    if reorder_safe(old) {
        exists|r: Option<()>| reordered(old, new, cfg, r)
    } else {
        new == old
    }
}

/// Arranges the current workspace anew where its layout can; see
/// `reordered_if_safe`.
pub fn reorder_if_safe(state: &mut State, cfg: &Config)
    requires
        sound(*old(state), *cfg),
    ensures
        sound(*final(state), *cfg),
        reordered_if_safe(*old(state), *final(state), *cfg),
{
    if can_reorder(state, cfg) {
        let r = reorder(state, cfg);
        proof {
            assert(reordered(*old(state), *final(state), *cfg, r));
        }
    }
}

/// The window before `f` in the workspace shown, as `get_previous` finds it.
pub open spec fn prev_window(m: Monitor, f: Window) -> Option<Window> {
    if m.can_step_from(f) {
        match previous_of(m.cur().entries(), index_of(m.cur().entries(), m.cur().client(f).window), m.cur().client(f).window) {
            Some(ww) => Some(ww.window),
            None => None,
        }
    } else {
        None
    }
}

/// The window after `f` in the workspace shown, as `get_next` finds it.
pub open spec fn next_window(m: Monitor, f: Window) -> Option<Window> {
    if m.can_step_from(f) {
        match next_of(m.cur().entries(), index_of(m.cur().entries(), m.cur().client(f).window), m.cur().client(f).window) {
            Some(ww) => Some(ww.window),
            None => None,
        }
    } else {
        None
    }
}

/// Takes window `win` out of the workspace that monitor `id` shows, whose
/// focus goes to `focus`.
pub fn drop_shown(state: &mut State, cfg: &Config, id: MonitorId, win: Window, focus: Window)
    requires
        sound(*old(state), *cfg),
        old(state).mons().contains_key(id),
        old(state).mons()[id].cur().has_window(win),
    ensures
        sound(*final(state), *cfg),
        same_but_monitors(*old(state), *final(state)),
        final(state).focus_w == old(state).focus_w,
        final(state).current_monitor == old(state).current_monitor,
        ({
            let c = old(state).mons()[id].cur();
            mon_shown_updated(*old(state), *final(state), id, c.entries().remove(index_of(c.entries(), win)), focus)
        }),
{
    broadcast use vstd::std_specs::hash::group_hash_axioms;

    let mut mon = state.take_monitor(id).unwrap();
    let ghost m = mon;
    let cw = mon.current_ws;
    let mut wsv = mon.remove_ws(cw).unwrap();
    wsv.focus_w = focus;
    let _ = wsv.remove_window(win);
    mon.add_ws(wsv);
    state.put_monitor(mon);
    proof {
        assert(final(state).mons().dom() =~= old(state).mons().dom());
        let c = m.cur();
        lemma_mon_update_sound(*old(state), *final(state), *cfg, id, c.entries().remove(index_of(c.entries(), win)), focus);
    }
}

/// The window that takes the focus when `win` leaves the workspace that
/// `m` shows: the window before it, else the newest, else the root window.
pub open spec fn next_focus(m: Monitor, win: Window, root: Window) -> Window {
    match prev_window(m, win) {
        Some(p) => p,
        None => if m.cur().entries().len() > 0 {
            m.cur().entries().last().0
        } else {
            root
        },
    }
}

/// See `next_focus`.
pub fn next_focus_of(m: &Monitor, win: Window, root: Window) -> (f: Window)
    requires
        m.wf(),
        m.has_current(),
    ensures
        f == next_focus(*m, win, root),
{
    match m.get_previous(win) {
        Some(ww) => ww.window(),
        None => match m.get_newest() {
            Some((w, _)) => w,
            None => root,
        },
    }
}

/// Puts the focus of the workspace that monitor `id` shows on `focus`.
pub fn focus_shown(state: &mut State, cfg: &Config, id: MonitorId, focus: Window)
    requires
        sound(*old(state), *cfg),
        old(state).mons().contains_key(id),
    ensures
        sound(*final(state), *cfg),
        same_but_monitors(*old(state), *final(state)),
        final(state).focus_w == old(state).focus_w,
        final(state).current_monitor == old(state).current_monitor,
        mon_shown_updated(*old(state), *final(state), id, old(state).mons()[id].cur().entries(), focus),
{
    broadcast use vstd::std_specs::hash::group_hash_axioms;

    let mut mon = state.take_monitor(id).unwrap();
    let ghost m = mon;
    let cw = mon.current_ws;
    let mut wsv = mon.remove_ws(cw).unwrap();
    wsv.focus_w = focus;
    mon.add_ws(wsv);
    state.put_monitor(mon);
    proof {
        assert(final(state).mons().dom() =~= old(state).mons().dom());
        lemma_mon_update_sound(*old(state), *final(state), *cfg, id, m.cur().entries(), focus);
    }
}

} // verus!

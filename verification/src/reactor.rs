//! The effects on the X server that a change of the state calls for: the
//! state before an event and the state after it are compared.
use vstd::prelude::*;
use crate::action::Action;
use crate::config::Config;
use crate::geometry::{div_trunc, Position, Window};
use crate::models::client_map::{has_key, index_of, Entry};
use crate::models::windowwrapper::WindowWrapper;
use crate::models::WindowState;
use crate::state::State;
use crate::wm::{sound, sound_apart_from_current};

verus! {

/// `acts` and the focus taken to window `w`, unless it is the root window;
/// the border is drawn unless the window is maximized or in monocle.
pub open spec fn focus_appended(acts: Seq<Action>, state: State, w: Window, ww: WindowWrapper) -> Seq<Action> {
    if w == state.root {
        acts
    } else {
        acts.push(Action::SetFocus(w, !(ww.current_state == WindowState::Monocle || ww.current_state == WindowState::Maximized)))
    }
}

/// `acts` and what a change of the current monitor, or of the workspace it
/// shows, calls for: the desktops are told, and the pointer moves to the
/// focused window (else to the middle of the screen) when the monitor
/// follows it.
pub open spec fn monitor_appended(acts: Seq<Action>, prev: State, state: State) -> Seq<Action> {
    let m = state.cur_mon();
    let a1: Seq<Action> = if prev.current_monitor != state.current_monitor {
        let told = acts.push(Action::UpdateDesktops(m.current_ws));
        if m.mouse_follow {
            if m.cur().has_window(state.focus_w) {
                told.push(Action::CenterCursor(m.cur().client(state.focus_w).window))
            } else {
                told.push(
                    Action::MoveCursor(
                        Position {
                            x: (m.screen.x + div_trunc(m.screen.width as int, 2)) as i32,
                            y: (m.screen.y + div_trunc(m.screen.height as int, 2)) as i32,
                        },
                    ),
                )
            }
        } else {
            told
        }
    } else {
        acts
    };
    if prev.cur_mon().current_ws != m.current_ws {
        a1.push(Action::UpdateDesktops(m.current_ws))
    } else {
        a1
    }
}

/// `acts` and what a change of state of window `w` calls for.
pub open spec fn state_change_appended(acts: Seq<Action>, cfg: Config, state: State, w: Window, ww: WindowWrapper, n: int) -> Seq<Action> {
    if ww.current_state == WindowState::Maximized || ww.current_state == WindowState::Monocle {
        acts.push(Action::SetBorderWidth(w, 0)).push(Action::RaiseWindow(w))
    } else if ww.previous_state == WindowState::Maximized || ww.previous_state == WindowState::Monocle {
        let bordered = if n > 1 {
            acts.push(Action::SetBorderWidth(w, cfg.border_width)).push(Action::SetBorderColor(w, cfg.background_color))
        } else {
            acts
        };
        focus_appended(bordered, state, w, ww)
    } else if ww.current_state is Snapped {
        focus_appended(acts.push(Action::CenterCursor(w)), state, w, ww)
    } else {
        acts
    }
}

/// `acts` and what a client `ww` that the previous state knew as `c` calls
/// for: it is focused or unfocused as the focus moved, moved and resized as
/// it changed, raised when transient, moved where it is (or out of sight
/// when hidden), handled as its state changed, and killed when it is to be
/// destroyed.
pub open spec fn known_appended(acts: Seq<Action>, prev: State, state: State, cfg: Config, ww: WindowWrapper, c: WindowWrapper, n: int) -> Seq<Action> {
    let w = ww.window;
    let pos = ww.window_rect.pos();
    let size = ww.window_rect.sz();
    let a1 = if w == state.focus_w && w != prev.focus_w {
        focus_appended(acts, state, w, ww).push(Action::Flush)
    } else {
        acts
    };
    let a2 = if w != state.focus_w { a1.push(Action::UnsetFocus(w, size)) } else { a1 };
    let a3 = if c.window_rect.pos() != pos { a2.push(Action::MoveWindow(w, pos)) } else { a2 };
    let a4 = if c.window_rect.sz() != size { a3.push(Action::ResizeWindow(w, size)) } else { a3 };
    let a5 = if ww.is_trans { a4.push(Action::RaiseWindow(w)) } else { a4 };
    let a6 = if ww.hidden { a5.push(Action::MoveWindow(w, state.hide_space)) } else { a5.push(Action::MoveWindow(w, pos)) };
    let a7 = if c.current_state != ww.current_state { state_change_appended(a6, cfg, state, w, ww, n) } else { a6 };
    if ww.current_state == WindowState::Destroy && w != state.root {
        a7.push(Action::KillWindow(w))
    } else {
        a7
    }
}

/// `acts` and what one client `ww` of the workspace shown calls for, `n`
/// being the number of clients.  A window new there is set up: kept in the
/// save set and the client list, given a border, moved, resized, watched,
/// mapped and focused; see `known_appended` for the others.
pub open spec fn client_appended(acts: Seq<Action>, prev: State, state: State, cfg: Config, ww: WindowWrapper, n: int) -> Seq<Action> {
    let w = ww.window;
    let pe = prev.client_entries();
    if !has_key(pe, w) {
        focus_appended(
            acts.push(Action::AddToSaveSet(w)).push(Action::AddToRootNetClientList(w)).push(Action::SetBorderWidth(w, 0)).push(
                Action::SetBorderColor(w, cfg.background_color),
            ).push(Action::MoveWindow(w, ww.window_rect.pos())).push(Action::ResizeWindow(w, ww.window_rect.sz())).push(
                Action::SubscribeToEvents(w),
            ).push(Action::MapWindow(w)),
            state,
            w,
            ww,
        )
    } else {
        known_appended(acts, prev, state, cfg, ww, pe[index_of(pe, w)].1, n)
    }
}

/// `acts` and what the clients `es` call for, one after the other.
pub open spec fn clients_appended(acts: Seq<Action>, prev: State, state: State, cfg: Config, es: Seq<Entry>, n: int) -> Seq<Action>
    decreases es.len(),
{
    if es.len() == 0 {
        acts
    } else {
        client_appended(clients_appended(acts, prev, state, cfg, es.drop_last(), n), prev, state, cfg, es.last().1, n)
    }
}

/// `acts` and what going from `prev` to `state` calls for.
pub open spec fn reacted(acts: Seq<Action>, prev: State, state: State, cfg: Config) -> Seq<Action> {
    let es = state.client_entries();
    clients_appended(monitor_appended(acts, prev, state), prev, state, cfg, es, es.len() as int)
}

/// The state once the pointer moved to a current monitor that followed it:
/// it follows it no more.
pub open spec fn follow_settled(prev: State, state: State, new: State) -> bool {
    let cur = state.current_monitor;
    if prev.current_monitor != cur && state.cur_mon().mouse_follow {
        &&& new == (State { monitors: new.monitors, ..state })
        &&& new.mons() == state.mons().insert(cur, crate::models::monitor::Monitor { mouse_follow: false, ..state.cur_mon() })
    } else {
        new == state
    }
}

/// The focus effects for `w`; see `focus_appended`.
fn push_focus(state: &State, w: Window, ww: &WindowWrapper, actions: &mut Vec<Action>)
    ensures
        final(actions)@ == focus_appended(old(actions)@, *state, w, *ww),
{
    if w != state.root {
        let border = !(ww.current_state == WindowState::Monocle || ww.current_state == WindowState::Maximized);
        actions.push(Action::SetFocus(w, border));
    }
}

/// The effects for a change of state of `w`; see `state_change_appended`.
fn push_state_change(cfg: &Config, state: &State, w: Window, ww: &WindowWrapper, n: usize, actions: &mut Vec<Action>)
    ensures
        final(actions)@ == state_change_appended(old(actions)@, *cfg, *state, w, *ww, n as int),
{
    if ww.current_state == WindowState::Maximized || ww.current_state == WindowState::Monocle {
        actions.push(Action::SetBorderWidth(w, 0));
        actions.push(Action::RaiseWindow(w));
    } else if ww.previous_state == WindowState::Maximized || ww.previous_state == WindowState::Monocle {
        if n > 1 {
            actions.push(Action::SetBorderWidth(w, cfg.border_width));
            actions.push(Action::SetBorderColor(w, cfg.background_color.copied()));
        }
        push_focus(state, w, ww, actions);
    } else if let WindowState::Snapped(_) = ww.current_state {
        actions.push(Action::CenterCursor(w));
        push_focus(state, w, ww, actions);
    }
}

/// The effects for a client that the previous state knew as `c`; see
/// `known_appended`.
fn push_known(prev: &State, state: &State, cfg: &Config, ww: &WindowWrapper, c: &WindowWrapper, n: usize, actions: &mut Vec<Action>)
    ensures
        final(actions)@ == known_appended(old(actions)@, *prev, *state, *cfg, *ww, *c, n as int),
{
    let w = ww.window();
    let pos = ww.get_position();
    let size = ww.get_size();
    if w == state.focus_w && w != prev.focus_w {
        push_focus(state, w, ww, actions);
        actions.push(Action::Flush);
    }
    if w != state.focus_w {
        actions.push(Action::UnsetFocus(w, size));
    }
    if c.get_position() != pos {
        actions.push(Action::MoveWindow(w, pos));
    }
    if c.get_size() != size {
        actions.push(Action::ResizeWindow(w, size));
    }
    if ww.is_trans {
        actions.push(Action::RaiseWindow(w));
    }
    if ww.hidden {
        actions.push(Action::MoveWindow(w, state.hide_space));
    } else {
        actions.push(Action::MoveWindow(w, pos));
    }
    if c.current_state != ww.current_state {
        push_state_change(cfg, state, w, ww, n, actions);
    }
    if ww.current_state == WindowState::Destroy && w != state.root {
        actions.push(Action::KillWindow(w));
    }
}

/// The effects for one client; see `client_appended`.
fn push_client(prev: &State, state: &State, cfg: &Config, ww: &WindowWrapper, n: usize, actions: &mut Vec<Action>)
    requires
        prev.wf(),
    ensures
        final(actions)@ == client_appended(old(actions)@, *prev, *state, *cfg, *ww, n as int),
{
    broadcast use vstd::std_specs::hash::group_hash_axioms;

    let w = ww.window();
    let before = match prev.monitors.get(&prev.current_monitor) {
        Some(mon) => mon.get_client(w),
        None => None,
    };
    proof {
        let pe = prev.client_entries();
        if prev.has_current() && prev.cur_mon().has_current() {
            assert(prev.cur_mon().wf());
        }
        assert(before is Some <==> has_key(pe, w));
        if before is Some {
            assert(before == Some(pe[index_of(pe, w)].1));
        }
    }
    match before {
        None => {
            actions.push(Action::AddToSaveSet(w));
            actions.push(Action::AddToRootNetClientList(w));
            actions.push(Action::SetBorderWidth(w, 0));
            actions.push(Action::SetBorderColor(w, cfg.background_color.copied()));
            actions.push(Action::MoveWindow(w, ww.get_position()));
            actions.push(Action::ResizeWindow(w, ww.get_size()));
            actions.push(Action::SubscribeToEvents(w));
            actions.push(Action::MapWindow(w));
            push_focus(state, w, ww, actions);
        },
        Some(c) => {
            push_known(prev, state, cfg, ww, &c, n, actions);
        },
    }
}

/// Carries out the comparison of the state before an event, `prev`, with
/// the state after it: the effects are appended to `actions`, and a current
/// monitor that followed the pointer to it follows it no more.
fn react_to(prev: &State, state: &mut State, cfg: &Config, actions: &mut Vec<Action>)
    requires
        sound(*prev, *cfg),
        sound(*old(state), *cfg),
    ensures
        final(actions)@ == reacted(old(actions)@, *prev, *old(state), *cfg),
        follow_settled(*prev, *old(state), *final(state)),
        sound(*final(state), *cfg),
{
    broadcast use vstd::std_specs::hash::group_hash_axioms;

    let ghost a0 = actions@;
    let cur = state.current_monitor;
    let mon = state.monitors.get(&cur).unwrap();
    let follow = prev.current_monitor != cur && mon.mouse_follow;
    if prev.current_monitor != cur {
        actions.push(Action::UpdateDesktops(mon.current_ws));
        if mon.mouse_follow {
            match mon.get_client(state.focus_w) {
                Some(ww) => actions.push(Action::CenterCursor(ww.window())),
                None => {
                    proof {
                        crate::geometry::lemma_div_trunc_bound(mon.screen.width as int, 2);
                        crate::geometry::lemma_div_trunc_bound(mon.screen.height as int, 2);
                    }
                    actions.push(
                        Action::MoveCursor(
                            Position { x: mon.screen.x + mon.screen.width / 2, y: mon.screen.y + mon.screen.height / 2 },
                        ),
                    )
                },
            }
        }
    }
    let prev_ws = prev.monitors.get(&prev.current_monitor).unwrap().current_ws;
    if prev_ws != mon.current_ws {
        actions.push(Action::UpdateDesktops(mon.current_ws));
    }
    let ghost a1 = actions@;
    proof {
        assert(a1 == monitor_appended(a0, *prev, *old(state)));
    }
    let clients = state.clients();
    let n = clients.len();
    let mut i: usize = 0;
    while i < n
        invariant
            i <= n,
            n == clients@.len(),
            clients@ == old(state).client_entries(),
            *state == *old(state),
            prev.wf(),
            actions@ == clients_appended(a1, *prev, *old(state), *cfg, clients@.take(i as int), n as int),
        decreases n - i,
    {
        let (_, ww) = clients[i];
        proof {
            assert(clients@.take(i as int + 1).drop_last() =~= clients@.take(i as int));
        }
        push_client(prev, state, cfg, &ww, n, actions);
        i = i + 1;
    }
    proof {
        assert(clients@.take(n as int) =~= clients@);
    }
    if follow {
        let mut m = state.take_monitor(cur).unwrap();
        m.mouse_follow = false;
        state.put_monitor(m);
        proof {
            let new = *final(state);
            assert(new.mons() =~= old(state).mons().insert(cur, crate::models::monitor::Monitor { mouse_follow: false, ..old(state).cur_mon() }));
            assert(new.mons().dom() =~= old(state).mons().dom());
            assert forall|k: crate::geometry::MonitorId| #[trigger] new.mons().contains_key(k) implies new.mons()[k].wf() && new.mons()[k].id == k by {
                assert(old(state).mons().contains_key(k));
            }
            assert forall|k: crate::geometry::MonitorId| #[trigger] new.mons().contains_key(k) implies new.mons()[k].inputs_ok(*cfg) by {
                assert(old(state).mons().contains_key(k));
            }
            assert forall|k: crate::geometry::MonitorId| #[trigger] new.mons().contains_key(k) implies new.mons()[k].has_current() by {
                assert(old(state).mons().contains_key(k));
            }
        }
    }
}

/// Keeps the state before each event, to compare the state after it with.
pub struct HdlReactor {
    pub prev_state: State,
}

impl HdlReactor {
    pub fn new(state: State) -> (r: HdlReactor)
        ensures
            r.prev_state == state,
    {
        HdlReactor { prev_state: state }
    }

    /// Appends the effects of going from the state kept to `state` (see
    /// `reacted`), lets a current monitor that followed the pointer to it
    /// follow it no more, and keeps a copy of the new state.  A state
    /// without its current monitor is refused: nothing happens and
    /// `NoCurrentMonitor` comes back.
    pub fn react(&mut self, state: &mut State, cfg: &Config, actions: &mut Vec<Action>) -> (r: Result<(), NoCurrentMonitor>)
        requires
            sound(old(self).prev_state, *cfg),
            sound_apart_from_current(*old(state), *cfg),
        ensures
            r is Ok <==> old(state).has_current(),
            r is Err ==> *final(state) == *old(state) && *final(self) == *old(self) && final(actions)@ == old(actions)@,
            r is Ok ==> {
                &&& final(actions)@ == reacted(old(actions)@, old(self).prev_state, *old(state), *cfg)
                &&& follow_settled(old(self).prev_state, *old(state), *final(state))
                &&& sound(*final(state), *cfg)
                &&& final(self).prev_state.mons() == final(state).mons()
                &&& final(self).prev_state == (State { monitors: final(self).prev_state.monitors, ..*final(state) })
                &&& sound(final(self).prev_state, *cfg)
            },
    {
        if !state.monitors.contains_key(&state.current_monitor) {
            return Err(NoCurrentMonitor);
        }
        react_to(&self.prev_state, state, cfg, actions);
        self.prev_state = state.duplicate();
        Ok(())
    }
}

/// The state handed to the reactor has no monitor under its current one.
#[derive(Clone, Copy, Debug, PartialEq, Eq)]
pub struct NoCurrentMonitor;

} // verus!

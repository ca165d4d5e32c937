//! A client asks to be configured.
use vstd::prelude::*;
use crate::action::{Action, WindowChanges};
use crate::config::Config;
use crate::geometry::{MonitorId, Window};
use crate::models::client_map::{index_of, insert_entry, sort_by_toc};
use crate::models::monitor::clients_replaced;
use crate::state::State;
use crate::wm::{get_mon_by_window, same_but_monitors, sound, unique_mon_with_window};

verus! {

/// A client asks to be configured; the fields hold what the X server
/// reports.
#[derive(Clone, Copy, Debug)]
pub struct ConfigurationRequest {
    pub win: Window,
    pub value_mask: i64,
    pub changes: WindowChanges,
}

/// What a configuration request does.  A window that no monitor alone
/// holds is configured as it asks.  A managed window is configured as it
/// asks but at the rectangle that the window manager keeps for it; its
/// wrapper is filed again, in a workspace that holds it, under the window
/// that the wrapper names.
pub open spec fn configured(old: State, new: State, ev: ConfigurationRequest, acts: Seq<Action>, new_acts: Seq<Action>) -> bool {
    match unique_mon_with_window(old, ev.win) {
        None => new == old && new_acts == acts.push(Action::ConfigureWindow(ev.win, ev.value_mask, ev.changes)),
        Some(id) => {
            let m = old.mons()[id];
            exists|t: u32|
                #![trigger m.wss()[t]]
                m.wss().contains_key(t) && m.wss()[t].has_window(ev.win) && {
                    let s = m.wss()[t].entries();
                    let ww = m.wss()[t].client(ev.win);
                    let r = ww.window_rect;
                    let n = new.mons()[id];
                    &&& new_acts == acts.push(
                        Action::ConfigureWindow(
                            ev.win,
                            ev.value_mask,
                            WindowChanges { x: r.pos().x, y: r.pos().y, width: r.sz().width, height: r.sz().height, ..ev.changes },
                        ),
                    )
                    &&& same_but_monitors(old, new)
                    &&& new.focus_w == old.focus_w
                    &&& new.current_monitor == old.current_monitor
                    &&& new.mons().dom() == old.mons().dom()
                    &&& forall|k: MonitorId| #[trigger] new.mons().contains_key(k) && k != id ==> new.mons()[k] == old.mons()[k]
                    &&& crate::wm::same_monitor_frame(m, n)
                    &&& clients_replaced(m.wss(), n.wss(), t, sort_by_toc(insert_entry(s.remove(index_of(s, ev.win)), ww.window, ww)))
                }
        },
    }
}

/// Answers a configuration request; see `configured`.
pub fn configure_request(state: &mut State, cfg: &Config, ev: &ConfigurationRequest, actions: &mut Vec<Action>)
    requires
        sound(*old(state), *cfg),
    ensures
        sound(*final(state), *cfg),
        configured(*old(state), *final(state), *ev, old(actions)@, final(actions)@),
{
    broadcast use vstd::std_specs::hash::group_hash_axioms;

    let found = get_mon_by_window(state, ev.win);
    proof {
        let s = crate::wm::mons_with_window(*old(state), ev.win);
        match found {
            Some(id) => {
                let c = choose|c: MonitorId| s.contains(c) && forall|j: MonitorId| s.contains(j) ==> j == c;
                assert(c == id);
            },
            None => {
                if exists|id: MonitorId| s.contains(id) && forall|j: MonitorId| s.contains(j) ==> j == id {
                    let id = choose|id: MonitorId| s.contains(id) && forall|j: MonitorId| s.contains(j) ==> j == id;
                    let j = choose|j: MonitorId| s.contains(j) && j != id;
                    assert(false);
                }
            },
        }
    }
    let id = match found {
        Some(id) => id,
        None => {
            actions.push(Action::ConfigureWindow(ev.win, ev.value_mask, ev.changes));
            return;
        },
    };
    proof {
        assert(crate::wm::mons_with_window(*old(state), ev.win).contains(id));
    }
    let t = state.monitors.get(&id).unwrap().get_ws_by_window(ev.win).unwrap();
    let mut mon = state.take_monitor(id).unwrap();
    let ghost m = mon;
    let ww = mon.remove_window_non_current(ev.win, t).unwrap();
    let pos = ww.get_position();
    let size = ww.get_size();
    actions.push(
        Action::ConfigureWindow(
            ev.win,
            ev.value_mask,
            WindowChanges { x: pos.x, y: pos.y, width: size.width, height: size.height, ..ev.changes },
        ),
    );
    let key = ww.window();
    mon.add_window_non_current(key, ww, t);
    state.put_monitor(mon);
    proof {
        let new = *final(state);
        let s = m.wss()[t].entries();
        let rest = s.remove(index_of(s, ev.win));
        crate::models::client_map::lemma_sort_contents(insert_entry(rest, key, ww));
        assert(new.mons().dom() =~= old(state).mons().dom());
        assert forall|k: MonitorId| #[trigger] new.mons().contains_key(k) implies new.mons()[k].wf() && new.mons()[k].id == k by {
            assert(old(state).mons().contains_key(k));
        }
        assert forall|k: MonitorId| #[trigger] new.mons().contains_key(k) implies new.mons()[k].inputs_ok(*cfg) by {
            assert(old(state).mons().contains_key(k));
        }
        assert forall|k: MonitorId| #[trigger] new.mons().contains_key(k) implies new.mons()[k].has_current() by {
            assert(old(state).mons().contains_key(k));
        }
    }
}

} // verus!

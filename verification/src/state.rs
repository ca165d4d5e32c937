//! The whole state of the window manager.
use vstd::prelude::*;
use std::collections::HashMap;
use crate::config::Config;
use crate::geometry::{MonitorId, Position, Window};
use crate::models::monitor::{map_keys, Monitor};
use crate::models::screen::Screen;
use crate::models::workspace::Workspace;
use crate::models::client_map::Entry;

verus! {

/// The whole state: the monitors, which one has the focus, the focused
/// window, and where a drag started.
#[derive(Debug)]
pub struct State {
    pub monitors: HashMap<MonitorId, Monitor>,
    pub current_monitor: MonitorId,
    pub focus_w: Window,
    pub root: Window,
    pub drag_start_pos: (i32, i32),
    pub drag_start_frame_pos: (i32, i32),
    pub drag_start_frame_size: (i32, i32),
    pub latest_cursor_pos: Position,
    pub hide_space: Position,
    pub mouse_follow: bool,
    pub ignore_enter_leave: bool,
}

impl State {
    pub open spec fn mons(&self) -> Map<MonitorId, Monitor> {
        self.monitors@
    }

    /// Every monitor is well formed and filed under its id.
    pub open spec fn wf(&self) -> bool {
        forall|id: MonitorId| #[trigger] self.mons().contains_key(id) ==> self.mons()[id].wf() && self.mons()[id].id == id
    }

    /// Every monitor's screen and dock lie in the computable range.
    pub open spec fn inputs_ok(&self, cfg: Config) -> bool {
        &&& cfg.in_range()
        &&& forall|id: MonitorId| #[trigger] self.mons().contains_key(id) ==> self.mons()[id].inputs_ok(cfg)
    }

    pub open spec fn has_current(&self) -> bool {
        self.mons().contains_key(self.current_monitor)
    }

    /// The monitor that has the focus.
    pub open spec fn cur_mon(&self) -> Monitor {
        self.mons()[self.current_monitor]
    }

    /// A state with one monitor per screen, monitor `i` showing workspace
    /// `i`, the focus on the root window.
    pub fn new(root: Window, screens: &Vec<Screen>, cfg: &Config) -> (s: State)
        requires
            screens@.len() <= u32::MAX,
        ensures
            s.wf(),
            s.root == root,
            s.focus_w == root,
            s.current_monitor == 0,
            s.mons().dom() == Set::new(|i: u32| 0 <= i < screens@.len()),
            forall|i: u32| 0 <= i < screens@.len() ==> {
                &&& (#[trigger] s.mons()[i]).screen == screens@[i as int]
                &&& s.mons()[i].current_ws == i
                &&& s.mons()[i].wss().dom() == set![i]
                &&& s.mons()[i].wss()[i].entries().len() == 0
            },
            cfg.in_range() && screens@.len() > 0 && (forall|i: int| 0 <= i < screens@.len() ==> (#[trigger] screens@[i]).in_range())
                ==> crate::wm::sound(s, *cfg),
    {
        broadcast use vstd::std_specs::hash::group_hash_axioms;

        let mut monitors: HashMap<MonitorId, Monitor> = HashMap::new();
        let mut i: usize = 0;
        while i < screens.len()
            invariant
                i <= screens@.len(),
                screens@.len() <= u32::MAX,
                monitors@.dom() == Set::new(|k: u32| 0 <= k < i),
                forall|k: u32| #[trigger] monitors@.contains_key(k) ==> monitors@[k].wf() && monitors@[k].id == k,
                forall|k: u32| 0 <= k < i ==> {
                    &&& (#[trigger] monitors@[k]).screen == screens@[k as int]
                    &&& monitors@[k].current_ws == k
                    &&& monitors@[k].wss().dom() == set![k]
                    &&& monitors@[k].wss()[k].entries().len() == 0
                    &&& monitors@[k].dock_area == crate::models::dockarea::DockArea::empty()
                },
            decreases screens@.len() - i,
        {
            let id = i as u32;
            let ws = Workspace::with_layout(id, root, cfg.default_layout);
            let m = Monitor::new(id, screens[i], ws);
            monitors.insert(id, m);
            proof {
                assert(monitors@.dom() =~= Set::new(|k: u32| 0 <= k < i + 1));
            }
            i = i + 1;
        }
        let s = State {
            monitors,
            current_monitor: 0,
            focus_w: root,
            root,
            drag_start_pos: (0, 0),
            drag_start_frame_pos: (0, 0),
            drag_start_frame_size: (0, 0),
            latest_cursor_pos: Position { x: 0, y: 0 },
            hide_space: Position { x: 0, y: 0 },
            mouse_follow: true,
            ignore_enter_leave: false,
        };
        proof {
            if cfg.in_range() && screens@.len() > 0 && (forall|i: int| 0 <= i < screens@.len() ==> (#[trigger] screens@[i]).in_range()) {
                assert(s.mons().contains_key(0));
                assert forall|id: MonitorId| #[trigger] s.mons().contains_key(id) implies s.mons()[id].inputs_ok(*cfg) by {
                    assert(screens@[id as int].in_range());
                }
                assert forall|id: MonitorId| #[trigger] s.mons().contains_key(id) implies s.mons()[id].has_current() by {
                    assert(s.mons()[id].wss().dom() == set![id]);
                }
            }
        }
        s
    }

    /// Takes monitor `id` out of the state.
    pub fn take_monitor(&mut self, id: MonitorId) -> (r: Option<Monitor>)
        requires
            old(self).wf(),
        ensures
            final(self).wf(),
            final(self).mons() == old(self).mons().remove(id),
            old(self).mons().contains_key(id) ==> r == Some(old(self).mons()[id]),
            !old(self).mons().contains_key(id) ==> r is None,
            final(self).current_monitor == old(self).current_monitor,
            final(self).focus_w == old(self).focus_w,
            final(self).root == old(self).root,
            final(self).mouse_follow == old(self).mouse_follow,
            final(self).hide_space == old(self).hide_space,
            final(self).latest_cursor_pos == old(self).latest_cursor_pos,
            final(self).ignore_enter_leave == old(self).ignore_enter_leave,
            final(self).drag_start_pos == old(self).drag_start_pos,
            final(self).drag_start_frame_pos == old(self).drag_start_frame_pos,
            final(self).drag_start_frame_size == old(self).drag_start_frame_size,
    {
        broadcast use vstd::std_specs::hash::group_hash_axioms;

        let r = self.monitors.remove(&id);
        proof {
            if !old(self).mons().contains_key(id) {
                assert(final(self).mons() =~= old(self).mons().remove(id));
            }
        }
        r
    }

    /// Files the monitor under its id.
    pub fn put_monitor(&mut self, m: Monitor)
        requires
            old(self).wf(),
            m.wf(),
        ensures
            final(self).wf(),
            final(self).mons() == old(self).mons().insert(m.id, m),
            final(self).current_monitor == old(self).current_monitor,
            final(self).focus_w == old(self).focus_w,
            final(self).root == old(self).root,
            final(self).mouse_follow == old(self).mouse_follow,
            final(self).hide_space == old(self).hide_space,
            final(self).latest_cursor_pos == old(self).latest_cursor_pos,
            final(self).ignore_enter_leave == old(self).ignore_enter_leave,
            final(self).drag_start_pos == old(self).drag_start_pos,
            final(self).drag_start_frame_pos == old(self).drag_start_frame_pos,
            final(self).drag_start_frame_size == old(self).drag_start_frame_size,
    {
        broadcast use vstd::std_specs::hash::group_hash_axioms;

        let id = m.id;
        self.monitors.insert(id, m);
        proof {
            assert forall|k: MonitorId| #[trigger] final(self).mons().contains_key(k) implies final(self).mons()[k].wf() && final(self).mons()[k].id == k by {
                if k != id {
                    assert(old(self).mons().contains_key(k));
                }
            }
        }
    }

    /// A copy of the state, whose monitors have the same view.
    pub fn duplicate(&self) -> (r: State)
        ensures
            r.mons() == self.mons(),
            r == (State { monitors: r.monitors, ..*self }),
    {
        State {
            monitors: self.monitors.clone(),
            current_monitor: self.current_monitor,
            focus_w: self.focus_w,
            root: self.root,
            drag_start_pos: self.drag_start_pos,
            drag_start_frame_pos: self.drag_start_frame_pos,
            drag_start_frame_size: self.drag_start_frame_size,
            latest_cursor_pos: self.latest_cursor_pos,
            hide_space: self.hide_space,
            mouse_follow: self.mouse_follow,
            ignore_enter_leave: self.ignore_enter_leave,
        }
    }

    /// The clients of the workspace shown on the current monitor; none when
    /// there is no such workspace.
    pub open spec fn client_entries(&self) -> Seq<Entry> {
        if self.has_current() && self.cur_mon().has_current() {
            self.cur_mon().cur().entries()
        } else {
            Seq::empty()
        }
    }

    /// The clients of the workspace shown on the current monitor.
    pub fn clients(&self) -> (r: Vec<Entry>)
        ensures
            r@ == self.client_entries(),
    {
        broadcast use vstd::std_specs::hash::group_hash_axioms;

        match self.monitors.get(&self.current_monitor) {
            Some(mon) => match mon.get_current_ws() {
                Some(ws) => ws.client_list(),
                None => Vec::new(),
            },
            None => Vec::new(),
        }
    }

    /// The windows of the workspace shown on the current monitor.
    pub fn client_windows(&self) -> (r: Vec<Window>)
        ensures
            r@ == self.client_entries().map_values(|e: Entry| e.0),
    {
        broadcast use vstd::std_specs::hash::group_hash_axioms;

        match self.monitors.get(&self.current_monitor) {
            Some(mon) => match mon.get_current_ws() {
                Some(ws) => ws.client_keys(),
                None => {
                    proof {
                        assert(self.client_entries().map_values(|e: Entry| e.0) =~= Seq::<Window>::empty());
                    }
                    Vec::new()
                },
            },
            None => {
                proof {
                    assert(self.client_entries().map_values(|e: Entry| e.0) =~= Seq::<Window>::empty());
                }
                Vec::new()
            },
        }
    }

    /// The ids of the monitors, each once.
    pub fn monitor_ids(&self) -> (r: Vec<MonitorId>)
        ensures
            r@.to_set() == self.mons().dom(),
            r@.no_duplicates(),
    {
        map_keys(&self.monitors)
    }
}

} // verus!

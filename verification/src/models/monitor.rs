use vstd::prelude::*;
use std::collections::HashMap;
use vstd::std_specs::hash::spec_keys_iter;
use vstd::std_specs::iter::IteratorSpec;
use crate::config::Config;
use crate::geometry::{Position, Rect, Size, Window, MonitorId, COORD_LIMIT};
use crate::layout::{spec_maximize, spec_monocle, spec_place_window, spec_reorder, LayoutTag};
use crate::layout::floating::{column_or_floating_move, layout_inputs_ok, snapped_windows};
use crate::models::client_map::{index_of, insert_entry, sort_by_toc, swapped, Entry};
use crate::models::dockarea::DockArea;
use crate::models::screen::Screen;
use crate::models::windowwrapper::WindowWrapper;
use crate::models::workspace::{next_of, previous_of, Workspace};
use crate::models::{Direction, WindowState};

verus! {

/// The keys of a map keyed by `u32`, each once, in the map's order.
pub fn map_keys<V>(m: &HashMap<u32, V>) -> (r: Vec<u32>)
    ensures
        r@.to_set() == m@.dom(),
        r@.no_duplicates(),
{
    broadcast use vstd::std_specs::hash::group_hash_axioms;

    let ghost all = spec_keys_iter(m).remaining().unref();
    let mut r: Vec<u32> = Vec::new();
    for k in it: m.keys()
        invariant
            it.seq().unref() == all,
            r@ == all.take(it.index() as int),
    {
        r.push(*k);
        proof {
            assert(r@ =~= all.take(it.index() as int + 1));
        }
    }
    assert(r@ =~= all);
    r
}

/// `b` is `a` with other clients: tag, focus and layout are kept.
pub open spec fn same_but_clients(a: Workspace, b: Workspace) -> bool {
    &&& a.tag == b.tag
    &&& a.focus_w == b.focus_w
    &&& a.current_tag == b.current_tag
}

/// `new` is `old` but for the workspace under `t`, which keeps its other
/// fields and has `entries` as clients.
pub open spec fn clients_replaced(old: Map<u32, Workspace>, new: Map<u32, Workspace>, t: u32, entries: Seq<Entry>) -> bool {
    &&& new.dom() == old.dom()
    &&& forall|k: u32| #[trigger] new.contains_key(k) && k != t ==> new[k] == old[k]
    &&& new.contains_key(t) ==> same_but_clients(old[t], new[t]) && new[t].entries() == entries
}

/// The clients `s` after each window named in `rects` got its rectangle and
/// the state `cs`, in the order of `rects`.
pub open spec fn apply_rects(s: Seq<Entry>, rects: Seq<(Window, Rect)>, cs: WindowState) -> Seq<Entry>
    decreases rects.len(),
{
    if rects.len() == 0 {
        s
    } else {
        let s1 = apply_rects(s, rects.drop_last(), cs);
        let win = rects.last().0;
        let ww = s1[index_of(s1, win)].1;
        swapped(s1, win, WindowWrapper { window_rect: rects.last().1, current_state: cs, ..ww })
    }
}

/// A monitor: a screen and the workspaces shown on it, one at a time.
#[derive(Clone, Debug)]
pub struct Monitor {
    pub id: MonitorId,
    pub screen: Screen,
    pub workspaces: HashMap<u32, Workspace>,
    pub dock_area: DockArea,
    pub current_ws: u32,
    pub mouse_follow: bool,
}

impl Monitor {
    pub open spec fn wss(&self) -> Map<u32, Workspace> {
        self.workspaces@
    }

    /// Each workspace is well formed and filed under its tag.
    pub open spec fn wf(&self) -> bool {
        forall|t: u32| #[trigger] self.wss().contains_key(t) ==> self.wss()[t].wf() && self.wss()[t].tag == t
    }

    pub open spec fn has_current(&self) -> bool {
        self.wss().contains_key(self.current_ws)
    }

    /// The workspace shown.
    pub open spec fn cur(&self) -> Workspace {
        self.wss()[self.current_ws]
    }

    /// Some workspace of the monitor holds `w`.
    pub open spec fn holds(&self, w: Window) -> bool {
        exists|t: u32| #[trigger] self.wss().contains_key(t) && self.wss()[t].has_window(w)
    }

    /// The screen, the dock and the configuration lie in the computable
    /// range.
    pub open spec fn inputs_ok(&self, cfg: Config) -> bool {
        layout_inputs_ok(cfg, self.screen, self.dock_area)
    }

    /// A monitor showing `ws`, without a dock, whose pointer is to follow.
    pub fn new(id: u32, screen: Screen, ws: Workspace) -> (m: Monitor)
        requires
            ws.wf(),
        ensures
            m.wf(),
            m.id == id,
            m.screen == screen,
            m.wss().dom() == set![ws.tag],
            m.wss()[ws.tag] == ws,
            m.current_ws == ws.tag,
            m.dock_area == DockArea::empty(),
            m.mouse_follow,
    {
        broadcast use vstd::std_specs::hash::group_hash_axioms;

        let current_ws = ws.tag;
        let mut workspaces: HashMap<u32, Workspace> = HashMap::new();
        workspaces.insert(current_ws, ws);
        let m = Monitor {
            id,
            screen,
            workspaces,
            dock_area: DockArea::default(),
            current_ws,
            mouse_follow: true,
        };
        proof {
            assert(m.wss().dom() =~= set![current_ws]);
        }
        m
    }

    pub fn set_dock_area(&mut self, dock_area: DockArea)
        ensures
            *final(self) == (Monitor { dock_area, ..*old(self) }),
    {
        self.dock_area = dock_area;
    }

    /// Files `ww` under `w` in workspace `ws`; nothing happens when the
    /// monitor has no workspace `ws`.
    pub fn add_window_non_current(&mut self, w: Window, ww: WindowWrapper, ws: u32)
        requires
            old(self).wf(),
        ensures
            final(self).wf(),
            final(self).id == old(self).id,
            final(self).screen == old(self).screen,
            final(self).dock_area == old(self).dock_area,
            final(self).current_ws == old(self).current_ws,
            final(self).mouse_follow == old(self).mouse_follow,
            old(self).wss().contains_key(ws) ==> clients_replaced(
                old(self).wss(),
                final(self).wss(),
                ws,
                sort_by_toc(insert_entry(old(self).wss()[ws].entries(), w, ww)),
            ),
            !old(self).wss().contains_key(ws) ==> final(self).wss() == old(self).wss(),
    {
        broadcast use vstd::std_specs::hash::group_hash_axioms;

        match self.workspaces.remove(&ws) {
            Some(mut workspace) => {
                workspace.add_window(w, ww);
                self.workspaces.insert(ws, workspace);
                proof {
                    assert(final(self).wss().dom() =~= old(self).wss().dom());
                }
            },
            None => {},
        }
    }

    /// Files `ww` under `w` in the workspace shown.
    pub fn add_window(&mut self, w: Window, ww: WindowWrapper)
        requires
            old(self).wf(),
        ensures
            final(self).wf(),
            final(self).id == old(self).id,
            final(self).screen == old(self).screen,
            final(self).dock_area == old(self).dock_area,
            final(self).current_ws == old(self).current_ws,
            final(self).mouse_follow == old(self).mouse_follow,
            old(self).has_current() ==> clients_replaced(
                old(self).wss(),
                final(self).wss(),
                old(self).current_ws,
                sort_by_toc(insert_entry(old(self).cur().entries(), w, ww)),
            ),
            !old(self).has_current() ==> final(self).wss() == old(self).wss(),
    {
        let t = self.current_ws;
        self.add_window_non_current(w, ww, t);
    }

    /// Removes the window filed under `w` from workspace `ws`.
    pub fn remove_window_non_current(&mut self, w: Window, ws: u32) -> (r: Option<WindowWrapper>)
        requires
            old(self).wf(),
        ensures
            final(self).wf(),
            final(self).id == old(self).id,
            final(self).screen == old(self).screen,
            final(self).dock_area == old(self).dock_area,
            final(self).current_ws == old(self).current_ws,
            final(self).mouse_follow == old(self).mouse_follow,
            old(self).wss().contains_key(ws) && old(self).wss()[ws].has_window(w) ==> {
                &&& r == Some(old(self).wss()[ws].client(w))
                &&& clients_replaced(
                    old(self).wss(),
                    final(self).wss(),
                    ws,
                    old(self).wss()[ws].entries().remove(index_of(old(self).wss()[ws].entries(), w)),
                )
            },
            !(old(self).wss().contains_key(ws) && old(self).wss()[ws].has_window(w)) ==> r is None
                && final(self).wss() == old(self).wss(),
    {
        broadcast use vstd::std_specs::hash::group_hash_axioms;

        match self.workspaces.remove(&ws) {
            Some(mut workspace) => {
                let r = workspace.remove_window(w);
                self.workspaces.insert(ws, workspace);
                proof {
                    assert(final(self).wss().dom() =~= old(self).wss().dom());
                    if !old(self).wss()[ws].has_window(w) {
                        assert(final(self).wss() =~= old(self).wss());
                    }
                    if !old(self).wss()[ws].has_window(w) {
                        assert(final(self).wss() == old(self).wss());
                    }
                }
                r
            },
            None => None,
        }
    }

    /// Removes the window filed under `w` from the workspace shown.
    pub fn remove_window(&mut self, w: Window) -> (r: Option<WindowWrapper>)
        requires
            old(self).wf(),
        ensures
            final(self).wf(),
            final(self).id == old(self).id,
            final(self).screen == old(self).screen,
            final(self).dock_area == old(self).dock_area,
            final(self).current_ws == old(self).current_ws,
            final(self).mouse_follow == old(self).mouse_follow,
            old(self).has_current() && old(self).cur().has_window(w) ==> {
                &&& r == Some(old(self).cur().client(w))
                &&& clients_replaced(
                    old(self).wss(),
                    final(self).wss(),
                    old(self).current_ws,
                    old(self).cur().entries().remove(index_of(old(self).cur().entries(), w)),
                )
            },
            !(old(self).has_current() && old(self).cur().has_window(w)) ==> r is None
                && final(self).wss() == old(self).wss(),
    {
        let t = self.current_ws;
        self.remove_window_non_current(w, t)
    }

    /// The tag of a workspace holding `w`.
    pub fn get_ws_by_window(&self, w: Window) -> (r: Option<u32>)
        requires
            self.wf(),
        ensures
            match r {
                Some(t) => self.wss().contains_key(t) && self.wss()[t].has_window(w),
                None => !self.holds(w),
            },
    {
        broadcast use vstd::std_specs::hash::group_hash_axioms;

        let tags = map_keys(&self.workspaces);
        let mut i: usize = 0;
        while i < tags.len()
            invariant
                i <= tags@.len(),
                self.wf(),
                tags@.to_set() == self.wss().dom(),
                forall|j: int| 0 <= j < i ==> !self.wss()[#[trigger] tags@[j]].has_window(w),
            decreases tags@.len() - i,
        {
            let t = tags[i];
            proof {
                assert(tags@.to_set().contains(t));
                assert(self.wss().contains_key(t));
            }
            match self.workspaces.get(&t) {
                Some(ws) => {
                    assert(*ws == self.wss()[t]);
                    assert(ws.tag == t);
                    if ws.contains_window(w) {
                        return Some(ws.tag);
                    }
                },
                None => {},
            }
            i = i + 1;
        }
        proof {
            assert forall|t: u32| #[trigger] self.wss().contains_key(t) implies !self.wss()[t].has_window(w) by {
                assert(tags@.to_set().contains(t));
                let j = choose|j: int| 0 <= j < tags@.len() && tags@[j] == t;
                assert(!self.wss()[tags@[j]].has_window(w));
            }
        }
        None
    }

    /// The newest window of the workspace shown.
    pub fn get_newest(&self) -> (r: Option<Entry>)
        ensures
            !self.has_current() || self.cur().entries().len() == 0 ==> r is None,
            self.has_current() && self.cur().entries().len() > 0 ==> r == Some(self.cur().entries().last()),
    {
        broadcast use vstd::std_specs::hash::group_hash_axioms;

        match self.workspaces.get(&self.current_ws) {
            Some(ws) => ws.get_newest(),
            None => None,
        }
    }

    /// The workspace shown holds `win`, with another window, and the wrapper
    /// of `win` names a window filed there.
    pub open spec fn can_step_from(&self, win: Window) -> bool {
        &&& self.has_current()
        &&& self.cur().has_window(win)
        &&& self.cur().entries().len() > 1
        &&& self.cur().has_window(self.cur().client(win).window)
    }

    /// The window before `win` in the workspace shown.
    pub fn get_previous(&self, win: Window) -> (r: Option<WindowWrapper>)
        requires
            self.wf(),
        ensures
            self.can_step_from(win) ==> r == previous_of(
                self.cur().entries(),
                index_of(self.cur().entries(), self.cur().client(win).window),
                self.cur().client(win).window,
            ),
            !self.can_step_from(win) ==> r is None,
    {
        broadcast use vstd::std_specs::hash::group_hash_axioms;

        let ws = match self.workspaces.get(&self.current_ws) {
            Some(ws) => ws,
            None => return None,
        };
        match ws.get_client(win) {
            Some(ww) => ws.get_previous(&ww),
            None => None,
        }
    }

    /// The window after `win` in the workspace shown.
    pub fn get_next(&self, win: Window) -> (r: Option<WindowWrapper>)
        requires
            self.wf(),
        ensures
            self.can_step_from(win) ==> r == next_of(
                self.cur().entries(),
                index_of(self.cur().entries(), self.cur().client(win).window),
                self.cur().client(win).window,
            ),
            !self.can_step_from(win) ==> r is None,
    {
        broadcast use vstd::std_specs::hash::group_hash_axioms;

        let ws = match self.workspaces.get(&self.current_ws) {
            Some(ws) => ws,
            None => return None,
        };
        match ws.get_client(win) {
            Some(ww) => ws.get_next(&ww),
            None => None,
        }
    }

    /// Some workspace of the monitor holds `w`.
    pub fn contains_window(&self, w: Window) -> (r: bool)
        requires
            self.wf(),
        ensures
            r == self.holds(w),
    {
        self.get_ws_by_window(w).is_some()
    }

    pub fn contains_ws(&self, ws: u32) -> (r: bool)
        ensures
            r == self.wss().contains_key(ws),
    {
        broadcast use vstd::std_specs::hash::group_hash_axioms;

        self.workspaces.contains_key(&ws)
    }

    pub fn get_current_ws(&self) -> (r: Option<&Workspace>)
        ensures
            self.has_current() ==> r == Some(&self.cur()),
            !self.has_current() ==> r is None,
    {
        broadcast use vstd::std_specs::hash::group_hash_axioms;

        self.workspaces.get(&self.current_ws)
    }

    pub fn get_current_layout(&self) -> (r: Option<LayoutTag>)
        ensures
            self.has_current() ==> r == Some(self.cur().current_tag),
            !self.has_current() ==> r is None,
    {
        match self.get_current_ws() {
            Some(ws) => Some(ws.get_current_layout()),
            None => None,
        }
    }

    pub fn remove_ws(&mut self, ws: u32) -> (r: Option<Workspace>)
        requires
            old(self).wf(),
        ensures
            final(self).wf(),
            final(self).wss() == old(self).wss().remove(ws),
            old(self).wss().contains_key(ws) ==> r == Some(old(self).wss()[ws]),
            !old(self).wss().contains_key(ws) ==> r is None,
            final(self).id == old(self).id,
            final(self).screen == old(self).screen,
            final(self).dock_area == old(self).dock_area,
            final(self).current_ws == old(self).current_ws,
            final(self).mouse_follow == old(self).mouse_follow,
    {
        broadcast use vstd::std_specs::hash::group_hash_axioms;

        let r = self.workspaces.remove(&ws);
        proof {
            if !old(self).wss().contains_key(ws) {
                assert(final(self).wss() =~= old(self).wss().remove(ws));
            }
        }
        r
    }

    /// Files the workspace under its tag, replacing one with the same tag.
    pub fn add_ws(&mut self, ws: Workspace)
        requires
            old(self).wf(),
            ws.wf(),
        ensures
            final(self).wf(),
            final(self).wss() == old(self).wss().insert(ws.tag, ws),
            final(self).id == old(self).id,
            final(self).screen == old(self).screen,
            final(self).dock_area == old(self).dock_area,
            final(self).current_ws == old(self).current_ws,
            final(self).mouse_follow == old(self).mouse_follow,
    {
        broadcast use vstd::std_specs::hash::group_hash_axioms;

        let t = ws.tag;
        self.workspaces.insert(t, ws);
    }

    /// The client filed under `w` in the workspace shown.
    pub fn get_client(&self, w: Window) -> (r: Option<WindowWrapper>)
        requires
            self.wf(),
        ensures
            self.has_current() && self.cur().has_window(w) ==> r == Some(self.cur().client(w)),
            !(self.has_current() && self.cur().has_window(w)) ==> r is None,
    {
        broadcast use vstd::std_specs::hash::group_hash_axioms;

        match self.workspaces.get(&self.current_ws) {
            Some(ws) => ws.get_client(w),
            None => None,
        }
    }

    /// The wrappers of the windows of the workspace shown, in order.
    pub fn current_windows(&self) -> (r: Vec<WindowWrapper>)
        ensures
            self.has_current() ==> r@ == self.cur().windows(),
            !self.has_current() ==> r@.len() == 0,
    {
        match self.get_current_ws() {
            Some(ws) => ws.client_values(),
            None => Vec::new(),
        }
    }

    /// Where the layout of the workspace shown places its windows when `w`
    /// is new.
    pub fn place_window(&self, cfg: &Config, w: Window) -> (r: Vec<(Window, Rect)>)
        requires
            self.wf(),
            self.has_current(),
            self.inputs_ok(*cfg),
        ensures
            r@ == spec_place_window(self.cur().current_tag, *cfg, self.screen, self.dock_area, w, self.cur().windows()),
    {
        broadcast use vstd::std_specs::hash::group_hash_axioms;

        let ws = self.workspaces.get(&self.current_ws).unwrap();
        let windows = ws.client_values();
        ws.layout.place_window(cfg, &self.dock_area, &self.screen, w, windows.as_slice())
    }

    /// The frame and client positions of window `w` moved to `(x, y)`.
    pub fn move_window(&self, cfg: &Config, w: Window, x: i32, y: i32) -> (r: (Position, Position))
        requires
            self.wf(),
            self.has_current(),
            self.inputs_ok(*cfg),
            -4 * COORD_LIMIT <= x <= 4 * COORD_LIMIT,
            -4 * COORD_LIMIT <= y <= 4 * COORD_LIMIT,
        ensures
            r == column_or_floating_move(
                self.cur().current_tag == LayoutTag::ColumnMaster,
                *cfg,
                self.screen,
                self.dock_area,
                true,
                x,
                y,
            ),
    {
        broadcast use vstd::std_specs::hash::group_hash_axioms;

        let ws = self.workspaces.get(&self.current_ws).unwrap();
        ws.layout.move_window(cfg, &self.screen, &self.dock_area, w, true, x, y)
    }

    /// How the layout of the workspace shown arranges `windows`.
    pub fn reorder(&self, cfg: &Config, focus: Window, windows: &[WindowWrapper]) -> (r: Vec<(Window, Rect)>)
        requires
            self.wf(),
            self.has_current(),
            self.inputs_ok(*cfg),
            self.cur().current_tag == LayoutTag::Floating ==> windows@.len() > 0,
        ensures
            r@ == spec_reorder(self.cur().current_tag, *cfg, self.screen, self.dock_area, windows@),
    {
        broadcast use vstd::std_specs::hash::group_hash_axioms;

        let ws = self.workspaces.get(&self.current_ws).unwrap();
        ws.layout.reorder(cfg, focus, &self.screen, &self.dock_area, windows)
    }

    pub fn maximize(&self, cfg: &Config, w: Window, ww: &WindowWrapper) -> (r: (Position, Size))
        requires
            self.wf(),
            self.has_current(),
            self.inputs_ok(*cfg),
        ensures
            r == spec_maximize(self.cur().current_tag, *cfg, self.screen, self.dock_area),
    {
        broadcast use vstd::std_specs::hash::group_hash_axioms;

        let ws = self.workspaces.get(&self.current_ws).unwrap();
        ws.layout.maximize(cfg, &self.screen, &self.dock_area, ww, w)
    }

    pub fn monocle(&self, cfg: &Config, w: Window, ww: &WindowWrapper) -> (r: (Position, Size))
        requires
            self.wf(),
            self.has_current(),
            self.inputs_ok(*cfg),
        ensures
            r == spec_monocle(self.cur().current_tag, *cfg, self.screen, self.dock_area),
    {
        broadcast use vstd::std_specs::hash::group_hash_axioms;

        let ws = self.workspaces.get(&self.current_ws).unwrap();
        ws.layout.monocle(cfg, &self.screen, &self.dock_area, ww, w)
    }

    /// The windows changed by snapping window `w` toward `direction`.
    pub fn shift_window(&self, cfg: &Config, w: Window, direction: Direction) -> (r: Vec<WindowWrapper>)
        requires
            self.wf(),
            self.has_current(),
            self.cur().has_window(w),
            self.inputs_ok(*cfg),
        ensures
            r@ == snapped_windows(
                *cfg,
                self.screen,
                self.dock_area,
                self.cur().client(w),
                direction,
                self.cur().current_tag == LayoutTag::ColumnMaster,
            ),
    {
        broadcast use vstd::std_specs::hash::group_hash_axioms;

        let ww = self.get_client(w).unwrap();
        let ws = self.workspaces.get(&self.current_ws).unwrap();
        ws.layout.shift_window(cfg, &self.screen, &ww, &self.dock_area, w, direction)
    }

    /// Replaces the wrapper of `win` in the workspace shown by what `f` makes
    /// of it, given the monitor without `win`; `None` when the workspace
    /// shown does not hold `win`.
    pub fn swap_window<F>(&mut self, win: Window, f: F) -> (r: Option<()>)
        where
            F: Fn(&Monitor, WindowWrapper) -> WindowWrapper,
        requires
            old(self).wf(),
            forall|m: &Monitor, ww: WindowWrapper| f.requires((m, ww)),
        ensures
            final(self).wf(),
            final(self).id == old(self).id,
            final(self).screen == old(self).screen,
            final(self).dock_area == old(self).dock_area,
            final(self).current_ws == old(self).current_ws,
            final(self).mouse_follow == old(self).mouse_follow,
            r is Some <==> old(self).has_current() && old(self).cur().has_window(win),
            r is None ==> final(self).wss() == old(self).wss(),
            r is Some ==> exists|m: Monitor, nw: WindowWrapper|
                #![trigger f.ensures((&m, old(self).cur().client(win)), nw)]
                {
                    &&& m.id == old(self).id
                    &&& m.screen == old(self).screen
                    &&& m.dock_area == old(self).dock_area
                    &&& m.current_ws == old(self).current_ws
                    &&& m.mouse_follow == old(self).mouse_follow
                    &&& clients_replaced(
                        old(self).wss(),
                        m.wss(),
                        old(self).current_ws,
                        old(self).cur().entries().remove(index_of(old(self).cur().entries(), win)),
                    )
                    &&& f.ensures((&m, old(self).cur().client(win)), nw)
                    &&& clients_replaced(
                        old(self).wss(),
                        final(self).wss(),
                        old(self).current_ws,
                        sort_by_toc(
                            insert_entry(
                                old(self).cur().entries().remove(index_of(old(self).cur().entries(), win)),
                                win,
                                nw,
                            ),
                        ),
                    )
                },
    {
        let old_ww = match self.remove_window(win) {
            Some(ww) => ww,
            None => return None,
        };
        let ghost mid = *self;
        let new_ww = f(&*self, old_ww);
        self.add_window(win, new_ww);
        proof {
            assert(f.ensures((&mid, old(self).cur().client(win)), new_ww));
            assert forall|k: u32| #[trigger] final(self).wss().contains_key(k) && k != old(self).current_ws implies final(self).wss()[k] == old(self).wss()[k] by {
                assert(mid.wss().contains_key(k));
            }
        }
        Some(())
    }

    /// Replaces the wrapper of `win` in the workspace shown by `ww`; `None`
    /// when the workspace shown does not hold `win`.
    pub fn replace_window(&mut self, win: Window, ww: WindowWrapper) -> (r: Option<()>)
        requires
            old(self).wf(),
        ensures
            final(self).wf(),
            final(self).id == old(self).id,
            final(self).screen == old(self).screen,
            final(self).dock_area == old(self).dock_area,
            final(self).current_ws == old(self).current_ws,
            final(self).mouse_follow == old(self).mouse_follow,
            r is Some <==> old(self).has_current() && old(self).cur().has_window(win),
            r is None ==> final(self).wss() == old(self).wss(),
            r is Some ==> clients_replaced(
                old(self).wss(),
                final(self).wss(),
                old(self).current_ws,
                sort_by_toc(
                    insert_entry(
                        old(self).cur().entries().remove(index_of(old(self).cur().entries(), win)),
                        win,
                        ww,
                    ),
                ),
            ),
    {
        match self.remove_window(win) {
            Some(_) => {},
            None => return None,
        }
        let ghost mid = *self;
        self.add_window(win, ww);
        proof {
            assert forall|k: u32| #[trigger] final(self).wss().contains_key(k) && k != old(self).current_ws implies final(self).wss()[k] == old(self).wss()[k] by {
                assert(mid.wss().contains_key(k));
            }
        }
        Some(())
    }

    /// Replaces workspace `ws` by what `f` makes of it; `None` when the
    /// monitor has no workspace `ws`.
    pub fn swap_ws<F>(&mut self, ws: u32, f: F) -> (r: Option<()>)
        where
            F: Fn(&Monitor, Workspace) -> Workspace,
        requires
            old(self).wf(),
            forall|m: &Monitor, w: Workspace| f.requires((m, w)),
            forall|m: &Monitor, w: Workspace, n: Workspace| f.ensures((m, w), n) ==> n.wf(),
        ensures
            final(self).wf(),
            final(self).id == old(self).id,
            final(self).current_ws == old(self).current_ws,
            r is Some <==> old(self).wss().contains_key(ws),
            r is None ==> final(self).wss() == old(self).wss(),
            r is Some ==> exists|m: Monitor, n: Workspace|
                #![trigger f.ensures((&m, old(self).wss()[ws]), n)]
                f.ensures((&m, old(self).wss()[ws]), n) && final(self).wss() == old(self).wss().remove(
                    ws,
                ).insert(n.tag, n),
    {
        let old_ws = match self.remove_ws(ws) {
            Some(w) => w,
            None => return None,
        };
        let ghost mid = *self;
        let new_ws = f(&*self, old_ws);
        proof {
            assert(f.ensures((&mid, old(self).wss()[ws]), new_ws));
        }
        self.add_ws(new_ws);
        Some(())
    }

    /// The windows of every workspace of the monitor.
    pub fn get_client_keys(&self) -> (r: Vec<Window>)
        requires
            self.wf(),
        ensures
            forall|x: Window| r@.contains(x) <==> self.holds(x),
    {
        broadcast use vstd::std_specs::hash::group_hash_axioms;

        let tags = map_keys(&self.workspaces);
        let mut r: Vec<Window> = Vec::new();
        let mut i: usize = 0;
        while i < tags.len()
            invariant
                i <= tags@.len(),
                self.wf(),
                tags@.to_set() == self.wss().dom(),
                forall|x: Window| r@.contains(x) <==> exists|j: int| 0 <= j < i && #[trigger] self.wss()[tags@[j]].has_window(x),
            decreases tags@.len() - i,
        {
            let t = tags[i];
            proof {
                assert(tags@.to_set().contains(t));
            }
            let ws = self.workspaces.get(&t).unwrap();
            let keys = ws.client_keys();
            let ghost before = r@;
            let mut k: usize = 0;
            while k < keys.len()
                invariant
                    k <= keys@.len(),
                    keys@ == ws.entries().map_values(|e: Entry| e.0),
                    r@ == before + keys@.take(k as int),
            decreases keys@.len() - k,
            {
                r.push(keys[k]);
                proof {
                    assert(r@ =~= before + keys@.take(k as int + 1));
                }
                k = k + 1;
            }
            proof {
                assert(keys@.take(keys@.len() as int) =~= keys@);
                assert forall|x: Window| r@.contains(x) <==> exists|j: int| 0 <= j < i + 1 && #[trigger] self.wss()[tags@[j]].has_window(x) by {
                    if r@.contains(x) {
                        let p = choose|p: int| 0 <= p < r@.len() && r@[p] == x;
                        if p < before.len() {
                            assert(before.contains(x));
                        } else {
                            let q = p - before.len();
                            assert(keys@[q] == x);
                            assert(ws.entries()[q].0 == x);
                            assert(self.wss()[tags@[i as int]].has_window(x));
                        }
                    }
                    if exists|j: int| 0 <= j < i + 1 && #[trigger] self.wss()[tags@[j]].has_window(x) {
                        let j = choose|j: int| 0 <= j < i + 1 && #[trigger] self.wss()[tags@[j]].has_window(x);
                        if j < i {
                            assert(before.contains(x));
                            let p = choose|p: int| 0 <= p < before.len() && before[p] == x;
                            assert(r@[p] == x);
                        } else {
                            let q = index_of(ws.entries(), x);
                            assert(keys@[q] == x);
                            assert(r@[before.len() + q] == x);
                        }
                    }
                }
            }
            i = i + 1;
        }
        proof {
            assert forall|x: Window| r@.contains(x) <==> self.holds(x) by {
                if self.holds(x) {
                    let t = choose|t: u32| #[trigger] self.wss().contains_key(t) && self.wss()[t].has_window(x);
                    assert(tags@.to_set().contains(t));
                    let j = choose|j: int| 0 <= j < tags@.len() && tags@[j] == t;
                    assert(self.wss()[tags@[j]].has_window(x));
                }
                if r@.contains(x) {
                    let j = choose|j: int| 0 <= j < tags@.len() && #[trigger] self.wss()[tags@[j]].has_window(x);
                    assert(tags@.to_set().contains(tags@[j]));
                    assert(self.wss().contains_key(tags@[j]));
                }
            }
        }
        r
    }

    /// Gives each window named in `rects` its rectangle and the state `cs`,
    /// one after the other, in the workspace shown.
    pub fn apply_rects(&mut self, rects: &Vec<(Window, Rect)>, cs: WindowState)
        requires
            old(self).wf(),
        ensures
            final(self).wf(),
            final(self).id == old(self).id,
            final(self).screen == old(self).screen,
            final(self).dock_area == old(self).dock_area,
            final(self).current_ws == old(self).current_ws,
            final(self).mouse_follow == old(self).mouse_follow,
            old(self).has_current() ==> clients_replaced(
                old(self).wss(),
                final(self).wss(),
                old(self).current_ws,
                apply_rects(old(self).cur().entries(), rects@, cs),
            ),
            !old(self).has_current() ==> final(self).wss() == old(self).wss(),
            old(self).has_current() ==> final(self).cur().entries().len() == old(self).cur().entries().len(),
    {
        let mut i: usize = 0;
        while i < rects.len()
            invariant
                i <= rects@.len(),
                self.wf(),
                self.id == old(self).id,
                self.screen == old(self).screen,
                self.dock_area == old(self).dock_area,
                self.current_ws == old(self).current_ws,
                self.mouse_follow == old(self).mouse_follow,
                old(self).has_current() ==> clients_replaced(
                    old(self).wss(),
                    self.wss(),
                    old(self).current_ws,
                    apply_rects(old(self).cur().entries(), rects@.take(i as int), cs),
                ),
                !old(self).has_current() ==> self.wss() == old(self).wss(),
                old(self).has_current() ==> self.cur().entries().len() == old(self).cur().entries().len(),
            decreases rects@.len() - i,
        {
            let (win, rect) = rects[i];
            let ghost before = *self;
            match self.get_client(win) {
                Some(ww) => {
                    let nw = WindowWrapper { window_rect: rect, current_state: cs, ..ww };
                    let _ = self.replace_window(win, nw);
                    proof {
                        crate::models::client_map::lemma_refile(before.cur().entries(), win, nw);
                    }
                },
                None => {},
            }
            proof {
                assert(rects@.take(i as int + 1).drop_last() =~= rects@.take(i as int));
                if old(self).has_current() {
                    assert forall|k: u32| #[trigger] self.wss().contains_key(k) && k != old(self).current_ws implies self.wss()[k] == old(self).wss()[k] by {
                        assert(before.wss().contains_key(k));
                    }
                }
            }
            i = i + 1;
        }
        proof {
            assert(rects@.take(rects@.len() as int) =~= rects@);
        }
    }
}

} // verus!

//! The layouts that place the windows of a workspace.
pub mod column_master;
pub mod floating;
pub mod laws;

use vstd::prelude::*;
use crate::config::{Axis, Config};
use crate::geometry::{in_range, Position, Rect, Size, Window, COORD_LIMIT};
use floating::{column_or_floating_move, floating_place, layout_inputs_ok, snapped_windows, stack_rect, dock_height};
use column_master::column_place;
use crate::models::dockarea::DockArea;
use crate::models::screen::Screen;
use crate::models::windowwrapper::WindowWrapper;
use crate::models::Direction;
use column_master::ColumnMaster;
use floating::Floating;

verus! {

#[derive(Clone, Copy, Debug, PartialEq, Eq, Structural)]
pub enum LayoutTag {
    Floating,
    ColumnMaster,
}

impl LayoutTag {
    pub open spec fn spec_name(self) -> Seq<char> {
        match self {
            LayoutTag::Floating => "Floating"@,
            LayoutTag::ColumnMaster => "ColumnMaster"@,
        }
    }

    /// The name of the layout, as it is shown to the user.
    pub fn name(&self) -> (s: String)
        ensures
            s@ == self.spec_name(),
    {
        match self {
            LayoutTag::Floating => "Floating".to_string(),
            LayoutTag::ColumnMaster => "ColumnMaster".to_string(),
        }
    }
}

/// One of the layouts.
#[derive(Clone, Copy, Debug, PartialEq, Eq, Structural)]
pub enum Layout {
    Floating(Floating),
    ColumnMaster(ColumnMaster),
}

/// The layout of a tag.
pub open spec fn spec_layout_from_tag(tag: LayoutTag) -> Layout {
    match tag {
        LayoutTag::Floating => Layout::Floating(Floating { layout_type: LayoutTag::Floating }),
        LayoutTag::ColumnMaster => Layout::ColumnMaster(
            ColumnMaster { layout_type: LayoutTag::ColumnMaster },
        ),
    }
}

pub fn layout_from_tag(tag: LayoutTag) -> (l: Layout)
    ensures
        l == spec_layout_from_tag(tag),
        l.wf(),
        l.spec_get_type() == tag,
{
    match tag {
        LayoutTag::Floating => Layout::Floating(Floating::default()),
        LayoutTag::ColumnMaster => Layout::ColumnMaster(ColumnMaster::default()),
    }
}

/// The size of `ww` grown by `delta` along `axis`.
pub open spec fn resized(ww: WindowWrapper, axis: Axis, delta: i32) -> WindowWrapper {
    let old = ww.window_rect.sz();
    let size = match axis {
        Axis::Vertical => Size { width: old.width, height: (old.height + delta) as i32 },
        Axis::Horizontal => Size { width: (old.width + delta) as i32, height: old.height },
    };
    WindowWrapper { window_rect: Rect::mk(ww.window_rect.pos(), size), ..ww }
}

/// Where a layout places the windows of a workspace when `w` is new.
pub open spec fn spec_place_window(tag: LayoutTag, cfg: Config, screen: Screen, dock_area: DockArea, w: Window, s: Seq<WindowWrapper>) -> Seq<(Window, Rect)> {
    match tag {
        LayoutTag::Floating => seq![(w, floating_place(screen, dock_area))],
        LayoutTag::ColumnMaster => column_place(cfg, screen, dock_area, w, s),
    }
}

/// How a layout arranges the windows `s` of a workspace anew.
pub open spec fn spec_reorder(tag: LayoutTag, cfg: Config, screen: Screen, dock_area: DockArea, s: Seq<WindowWrapper>) -> Seq<(Window, Rect)> {
    match tag {
        LayoutTag::Floating => Seq::new(s.len(), |i: int| (s[s.len() - 1 - i].window, stack_rect(cfg, screen, dock_area, s.len() as int, i))),
        LayoutTag::ColumnMaster => if s.len() == 0 {
            Seq::empty()
        } else {
            column_place(cfg, screen, dock_area, s.last().window, s.drop_last())
        },
    }
}

/// The position and size of a maximized window.
pub open spec fn spec_maximize(tag: LayoutTag, cfg: Config, screen: Screen, dock_area: DockArea) -> (Position, Size) {
    (
        column_or_floating_move(tag == LayoutTag::ColumnMaster, cfg, screen, dock_area, true, screen.x, screen.y).0,
        Size { width: screen.width, height: (screen.height - dock_height(screen, dock_area)) as i32 },
    )
}

/// The position and size of a window in monocle.
pub open spec fn spec_monocle(tag: LayoutTag, cfg: Config, screen: Screen, dock_area: DockArea) -> (Position, Size) {
    (
        column_or_floating_move(tag == LayoutTag::ColumnMaster, cfg, screen, dock_area, false, screen.x, screen.y).0,
        Size { width: screen.width, height: screen.height },
    )
}

impl Layout {
    /// The tag that each layout carries names the layout.
    pub open spec fn wf(self) -> bool {
        match self {
            Layout::Floating(f) => f.layout_type == LayoutTag::Floating,
            Layout::ColumnMaster(c) => c.layout_type == LayoutTag::ColumnMaster,
        }
    }

    pub open spec fn spec_get_type(self) -> LayoutTag {
        match self {
            Layout::Floating(f) => f.layout_type,
            Layout::ColumnMaster(c) => c.layout_type,
        }
    }

    pub fn get_type(&self) -> (t: LayoutTag)
        ensures
            t == self.spec_get_type(),
    {
        match self {
            Layout::Floating(f) => f.get_type(),
            Layout::ColumnMaster(c) => c.get_type(),
        }
    }

    pub fn place_window(
        &self,
        cfg: &Config,
        dock_area: &DockArea,
        screen: &Screen,
        w: Window,
        windows: &[WindowWrapper],
    ) -> (r: Vec<(Window, Rect)>)
        requires
            self.wf(),
            layout_inputs_ok(*cfg, *screen, *dock_area),
        ensures
            r@ == spec_place_window(self.spec_get_type(), *cfg, *screen, *dock_area, w, windows@),
    {
        match self {
            Layout::Floating(f) => f.place_window(cfg, dock_area, screen, w, windows),
            Layout::ColumnMaster(c) => c.place_window(cfg, dock_area, screen, w, windows),
        }
    }

    pub fn move_window(
        &self,
        cfg: &Config,
        screen: &Screen,
        dock_area: &DockArea,
        w: Window,
        respect_dock: bool,
        x: i32,
        y: i32,
    ) -> (r: (Position, Position))
        requires
            self.wf(),
            layout_inputs_ok(*cfg, *screen, *dock_area),
            -4 * COORD_LIMIT <= x <= 4 * COORD_LIMIT,
            -4 * COORD_LIMIT <= y <= 4 * COORD_LIMIT,
        ensures
            r == column_or_floating_move(self.spec_get_type() == LayoutTag::ColumnMaster, *cfg, *screen, *dock_area, respect_dock, x, y),
    {
        match self {
            Layout::Floating(f) => f.move_window(cfg, screen, dock_area, w, respect_dock, x, y),
            Layout::ColumnMaster(c) => c.move_window(cfg, screen, dock_area, w, respect_dock, x, y),
        }
    }

    pub fn reorder(
        &self,
        cfg: &Config,
        focus: Window,
        screen: &Screen,
        dock_area: &DockArea,
        windows: &[WindowWrapper],
    ) -> (r: Vec<(Window, Rect)>)
        requires
            self.wf(),
            layout_inputs_ok(*cfg, *screen, *dock_area),
            self.spec_get_type() == LayoutTag::Floating ==> windows@.len() > 0,
        ensures
            r@ == spec_reorder(self.spec_get_type(), *cfg, *screen, *dock_area, windows@),
    {
        match self {
            Layout::Floating(f) => {
                let r = f.reorder(cfg, focus, screen, dock_area, windows);
                assert(r@ =~= spec_reorder(self.spec_get_type(), *cfg, *screen, *dock_area, windows@));
                r
            },
            Layout::ColumnMaster(c) => {
                let r = c.reorder(cfg, focus, screen, dock_area, windows);
                assert(r@ =~= spec_reorder(self.spec_get_type(), *cfg, *screen, *dock_area, windows@));
                r
            },
        }
    }

    pub fn maximize(&self, cfg: &Config, screen: &Screen, dock_area: &DockArea, ww: &WindowWrapper, w: Window) -> (r: (Position, Size))
        requires
            self.wf(),
            layout_inputs_ok(*cfg, *screen, *dock_area),
        ensures
            r == spec_maximize(self.spec_get_type(), *cfg, *screen, *dock_area),
    {
        match self {
            Layout::Floating(f) => f.maximize(cfg, screen, dock_area, ww, w),
            Layout::ColumnMaster(c) => c.maximize(cfg, screen, dock_area, ww, w),
        }
    }

    pub fn monocle(&self, cfg: &Config, screen: &Screen, dock_area: &DockArea, ww: &WindowWrapper, w: Window) -> (r: (Position, Size))
        requires
            self.wf(),
            layout_inputs_ok(*cfg, *screen, *dock_area),
        ensures
            r == spec_monocle(self.spec_get_type(), *cfg, *screen, *dock_area),
    {
        match self {
            Layout::Floating(f) => f.monocle(cfg, screen, dock_area, ww, w),
            Layout::ColumnMaster(c) => c.monocle(cfg, screen, dock_area, ww, w),
        }
    }

    pub fn shift_window(
        &self,
        cfg: &Config,
        screen: &Screen,
        ww: &WindowWrapper,
        dock_area: &DockArea,
        w: Window,
        direction: Direction,
    ) -> (r: Vec<WindowWrapper>)
        requires
            self.wf(),
            layout_inputs_ok(*cfg, *screen, *dock_area),
        ensures
            r@ == snapped_windows(*cfg, *screen, *dock_area, *ww, direction, self.spec_get_type() == LayoutTag::ColumnMaster),
    {
        match self {
            Layout::Floating(f) => f.shift_window(cfg, screen, ww, dock_area, w, direction),
            Layout::ColumnMaster(c) => c.shift_window(cfg, screen, ww, dock_area, w, direction),
        }
    }

    /// Grows window `win` by `delta` along `axis`; the other windows are
    /// returned as they are.
    pub fn resize(&self, win: Window, axis: &Axis, delta: i32, windows: &[WindowWrapper]) -> (r: Vec<WindowWrapper>)
        requires
            forall|i: int|
                0 <= i < windows@.len() && (#[trigger] windows@[i]).window == win
                    ==> in_range(windows@[i].window_rect.sz().width as int) && in_range(
                    windows@[i].window_rect.sz().height as int,
                ),
            in_range(delta as int),
        ensures
            r@.len() == windows@.len(),
            forall|i: int|
                0 <= i < windows@.len() ==> #[trigger] r@[i] == if windows@[i].window == win {
                    resized(windows@[i], *axis, delta)
                } else {
                    windows@[i]
                },
    {
        let mut r: Vec<WindowWrapper> = Vec::new();
        let mut i: usize = 0;
        while i < windows.len()
            invariant
                i <= windows@.len(),
                r@.len() == i,
                forall|j: int|
                    0 <= j < windows@.len() && (#[trigger] windows@[j]).window == win
                        ==> in_range(windows@[j].window_rect.sz().width as int) && in_range(
                        windows@[j].window_rect.sz().height as int,
                    ),
                in_range(delta as int),
                forall|j: int|
                    0 <= j < i ==> #[trigger] r@[j] == if windows@[j].window == win {
                        resized(windows@[j], *axis, delta)
                    } else {
                        windows@[j]
                    },
            decreases windows@.len() - i,
        {
            let ww = windows[i];
            if ww.window() == win {
                let old_size = ww.get_size();
                let size = match axis {
                    Axis::Vertical => Size { width: old_size.width, height: old_size.height + delta },
                    Axis::Horizontal => Size { width: old_size.width + delta, height: old_size.height },
                };
                r.push(WindowWrapper { window_rect: Rect::new(ww.get_position(), size), ..ww });
            } else {
                r.push(ww);
            }
            i = i + 1;
        }
        r
    }
}

} // verus!

use vstd::prelude::*;
use crate::config::Config;
use crate::geometry::{COORD_LIMIT, div_trunc, in_range, lemma_mul_div_trunc_bound, Position, Rect, Size, Window};
use crate::layout::LayoutTag;
use crate::models::dockarea::DockArea;
use crate::models::screen::Screen;
use crate::models::windowwrapper::WindowWrapper;
use crate::models::Direction;

verus! {

/// The layout in which windows float freely.
#[derive(Clone, Copy, Debug, PartialEq, Eq, Structural)]
pub struct Floating {
    pub layout_type: LayoutTag,
}

/// The inputs of a layout computation lie in the computable range.
pub open spec fn layout_inputs_ok(cfg: Config, screen: Screen, dock_area: DockArea) -> bool {
    &&& cfg.in_range()
    &&& screen.in_range()
    &&& dock_area.in_range()
}

/// The height of the dock on `screen`, zero without a dock.
pub open spec fn dock_height(screen: Screen, dock_area: DockArea) -> int {
    dock_area.dock_height(screen)
}

/// What `move_window` of the floating layout gives: the position of the
/// frame, lowered below the dock when asked to respect it, and the position
/// of the client inside the border and decoration.
pub open spec fn floating_move(
    cfg: Config,
    screen: Screen,
    dock_area: DockArea,
    respect_dock: bool,
    x: i32,
    y: i32,
) -> (Position, Position) {
    let dh = dock_height(screen, dock_area);
    let y2 = if respect_dock && dock_area.spec_as_rect(screen) is Some && y < dh {
        (dh - cfg.border_width) as i32
    } else {
        y
    };
    (
        Position { x, y: y2 },
        Position {
            x: (x + cfg.border_width) as i32,
            y: (y2 + cfg.decoration_height + cfg.border_width) as i32,
        },
    )
}

/// The move of the column layout when `column_master`, else of the
/// floating layout.
pub open spec fn column_or_floating_move(
    column_master: bool,
    cfg: Config,
    screen: Screen,
    dock_area: DockArea,
    respect_dock: bool,
    x: i32,
    y: i32,
) -> (Position, Position) {
    if column_master {
        crate::layout::column_master::column_master_move(cfg, screen, dock_area, respect_dock, x, y)
    } else {
        floating_move(cfg, screen, dock_area, respect_dock, x, y)
    }
}

/// Where the floating layout places a new window: 8/10 of the screen wide,
/// 6/10 high, centred (below the dock when there is one).
pub open spec fn floating_place(screen: Screen, dock_area: DockArea) -> Rect {
    let nw = div_trunc(screen.width as int, 10) * 8;
    let nh = div_trunc(screen.height as int, 10) * 6;
    let dw = div_trunc(screen.width - nw, 2);
    let dh = if dock_area.spec_as_rect(screen) is Some {
        div_trunc((screen.height + dock_height(screen, dock_area)) - nh, 2)
    } else {
        div_trunc(screen.height - nh, 2)
    };
    Rect::mk(
        Position { x: (screen.x + dw) as i32, y: (screen.y + dh) as i32 },
        Size { width: nw as i32, height: nh as i32 },
    )
}

/// The size of each window when the floating layout stacks them.
pub open spec fn stack_size(cfg: Config, screen: Screen, dock_area: DockArea) -> Size {
    let (w, h) = if dock_area.spec_as_rect(screen) is Some {
        (screen.width as int, screen.height - dock_height(screen, dock_area))
    } else {
        (screen.width as int, screen.height as int)
    };
    Size {
        width: (div_trunc(w, 2) - 2 * cfg.border_width) as i32,
        height: (div_trunc(h, 2) - 2 * cfg.border_width) as i32,
    }
}

/// The position of the front window of the stack.
pub open spec fn stack_center(cfg: Config, screen: Screen, dock_area: DockArea) -> Position {
    let (w, h) = if dock_area.spec_as_rect(screen) is Some {
        (screen.width as int, screen.height - dock_height(screen, dock_area))
    } else {
        (screen.width as int, screen.height as int)
    };
    let s = stack_size(cfg, screen, dock_area);
    Position {
        x: (div_trunc(w, 2) - div_trunc(s.width as int, 2)) as i32,
        y: (div_trunc(h, 2) - div_trunc(s.height as int, 2)) as i32,
    }
}

/// Where the floating layout puts window `i` of the stack of `n`: each
/// window one step up and to the left of the one before.
pub open spec fn stack_rect(cfg: Config, screen: Screen, dock_area: DockArea, n: int, i: int) -> Rect {
    let c = stack_center(cfg, screen, dock_area);
    let step_x = div_trunc(c.x as int, n);
    let step_y = div_trunc(c.y as int, n);
    Rect::mk(
        Position { x: (c.x - i * step_x) as i32, y: (c.y - i * step_y) as i32 },
        stack_size(cfg, screen, dock_area),
    )
}

/// What a snap toward `direction` makes of a window; `None` for the
/// diagonal directions, which do not snap.
pub open spec fn snapped_rect(
    cfg: Config,
    screen: Screen,
    dock_area: DockArea,
    direction: Direction,
    column_master: bool,
) -> Option<Rect> {
    let bw = cfg.border_width as int;
    let has_dock = dock_area.spec_as_rect(screen) is Some;
    let dh = dock_height(screen, dock_area);
    let mv = |x: i32, y: i32|
        if column_master {
            crate::layout::column_master::column_master_move(cfg, screen, dock_area, true, x, y).0
        } else {
            floating_move(cfg, screen, dock_area, true, x, y).0
        };
    match direction {
        Direction::North => {
            let h = div_trunc(screen.height as int, 2) - 2 * bw;
            let h2 = if has_dock { h - div_trunc(dh, 2) } else { h };
            Some(Rect::mk(mv(screen.x, screen.y), Size { width: (screen.width - 2 * bw) as i32, height: h2 as i32 }))
        },
        Direction::East => {
            let h = screen.height - bw;
            let h2 = if has_dock { h - dh } else { h };
            Some(Rect::mk(
                mv((screen.x + div_trunc(screen.width as int, 2)) as i32, screen.y),
                Size { width: (div_trunc(screen.width as int, 2) - 2 * bw) as i32, height: h2 as i32 },
            ))
        },
        Direction::West => {
            let h = screen.height - bw;
            let h2 = if has_dock { h - dh } else { h };
            Some(Rect::mk(
                mv(screen.x, screen.y),
                Size { width: (div_trunc(screen.width as int, 2) - 2 * bw) as i32, height: h2 as i32 },
            ))
        },
        Direction::South => {
            let p = mv(screen.x, (div_trunc(screen.height as int, 2) - bw) as i32);
            let h = div_trunc(screen.height as int, 2) - bw;
            let off = div_trunc(dh, 2);
            let (h2, y2) = if has_dock { (h - off, p.y + off) } else { (h, p.y as int) };
            Some(Rect::mk(
                Position { x: p.x, y: y2 as i32 },
                Size { width: (screen.width - 2 * bw) as i32, height: h2 as i32 },
            ))
        },
        _ => None,
    }
}

/// The windows that a snap changes: the snapped window with its new
/// rectangle, or none for a diagonal direction.
pub open spec fn snapped_windows(
    cfg: Config,
    screen: Screen,
    dock_area: DockArea,
    ww: WindowWrapper,
    direction: Direction,
    column_master: bool,
) -> Seq<WindowWrapper> {
    match snapped_rect(cfg, screen, dock_area, direction, column_master) {
        Some(r) => seq![WindowWrapper { window_rect: r, ..ww }],
        None => Seq::empty(),
    }
}

impl Floating {
    pub fn default() -> (f: Floating)
        ensures
            f.layout_type == LayoutTag::Floating,
    {
        Floating { layout_type: LayoutTag::Floating }
    }

    pub fn get_type(&self) -> (t: LayoutTag)
        ensures
            t == self.layout_type,
    {
        self.layout_type
    }

    /// A new window goes to the centre of the screen.
    pub fn place_window(
        &self,
        cfg: &Config,
        dock_area: &DockArea,
        screen: &Screen,
        w: Window,
        windows: &[WindowWrapper],
    ) -> (r: Vec<(Window, Rect)>)
        requires
            layout_inputs_ok(*cfg, *screen, *dock_area),
        ensures
            r@ == seq![(w, floating_place(*screen, *dock_area))],
    {
        let new_size = Size { width: (screen.width / 10) * 8, height: (screen.height / 10) * 6 };
        let dw = (screen.width - new_size.width) / 2;
        let mut dh = (screen.height - new_size.height) / 2;
        if let Some(dock_rect) = dock_area.as_rect(screen) {
            dh = ((screen.height + dock_rect.get_size().height) - new_size.height) / 2;
        }
        let new_pos = Position { x: screen.x + dw, y: screen.y + dh };
        let mut r: Vec<(Window, Rect)> = Vec::new();
        r.push((w, Rect::new(new_pos, new_size)));
        proof {
            assert(r@ =~= seq![(w, floating_place(*screen, *dock_area))]);
        }
        r
    }

    pub fn move_window(
        &self,
        cfg: &Config,
        screen: &Screen,
        dock_area: &DockArea,
        w: Window,
        respect_dock: bool,
        x: i32,
        y: i32,
    ) -> (r: (Position, Position))
        requires
            layout_inputs_ok(*cfg, *screen, *dock_area),
            -4 * COORD_LIMIT <= x <= 4 * COORD_LIMIT,
            -4 * COORD_LIMIT <= y <= 4 * COORD_LIMIT,
        ensures
            r == floating_move(*cfg, *screen, *dock_area, respect_dock, x, y),
    {
        let mut y = y;
        match dock_area.as_rect(screen) {
            Some(dock) => {
                if respect_dock && y < dock.get_size().height {
                    y = dock.get_size().height - cfg.border_width;
                }
            },
            None => {},
        }
        (
            Position { x, y },
            Position { x: x + cfg.border_width, y: y + cfg.decoration_height + cfg.border_width },
        )
    }

    /// Stacks the windows in the middle of the screen, the last window in
    /// front.
    pub fn reorder(
        &self,
        cfg: &Config,
        focus: Window,
        screen: &Screen,
        dock_area: &DockArea,
        windows: &[WindowWrapper],
    ) -> (r: Vec<(Window, Rect)>)
        requires
            layout_inputs_ok(*cfg, *screen, *dock_area),
            0 < windows@.len(),
        ensures
            r@.len() == windows@.len(),
            forall|i: int|
                0 <= i < windows@.len() ==> #[trigger] r@[i] == (
                    windows@[windows@.len() - 1 - i].window,
                    stack_rect(*cfg, *screen, *dock_area, windows@.len() as int, i),
                ),
    {
        let ghost n = windows@.len() as int;
        let (space_w, space_h) = match dock_area.as_rect(screen) {
            Some(dock) => (screen.width, screen.height - dock.get_size().height),
            None => (screen.width, screen.height),
        };
        let win_size_x = (space_w / 2) - 2 * cfg.border_width;
        let win_size_y = (space_h / 2) - 2 * cfg.border_width;
        let center_x = (space_w / 2) - (win_size_x / 2);
        let center_y = (space_h / 2) - (win_size_y / 2);
        let len = windows.len() as i128;
        let step_size_x = (center_x as i128) / len;
        let step_size_y = (center_y as i128) / len;
        proof {
            assert(center_x == stack_center(*cfg, *screen, *dock_area).x);
            assert(center_y == stack_center(*cfg, *screen, *dock_area).y);
        }
        let mut r: Vec<(Window, Rect)> = Vec::new();
        let mut index: usize = 0;
        while index < windows.len()
            invariant
                n == windows@.len(),
                0 < n,
                index <= n,
                len == n,
                r@.len() == index,
                layout_inputs_ok(*cfg, *screen, *dock_area),
                center_x == stack_center(*cfg, *screen, *dock_area).x,
                center_y == stack_center(*cfg, *screen, *dock_area).y,
                step_size_x == div_trunc(center_x as int, n),
                step_size_y == div_trunc(center_y as int, n),
                win_size_x == stack_size(*cfg, *screen, *dock_area).width,
                win_size_y == stack_size(*cfg, *screen, *dock_area).height,
                -3_000_000 <= center_x <= 3_000_000,
                -3_000_000 <= center_y <= 3_000_000,
                forall|i: int|
                    0 <= i < index ==> #[trigger] r@[i] == (
                        windows@[n - 1 - i].window,
                        stack_rect(*cfg, *screen, *dock_area, n, i),
                    ),
            decreases n - index,
        {
            proof {
                lemma_mul_div_trunc_bound(center_x as int, n, index as int);
                lemma_mul_div_trunc_bound(center_y as int, n, index as int);
            }
            let idx = index as i128;
            let x = (center_x as i128) - idx * step_size_x;
            let y = (center_y as i128) - idx * step_size_y;
            let pos = Position { x: x as i32, y: y as i32 };
            let size = Size { width: win_size_x, height: win_size_y };
            let win = windows[windows.len() - 1 - index].window();
            r.push((win, Rect::new(pos, size)));
            index = index + 1;
        }
        r
    }

    /// The client's new size: without decoration the frame takes the whole
    /// size.
    pub fn resize_window(&self, ww: &WindowWrapper, w: Window, width: i32, height: i32) -> (r: (Size, Size))
        ensures
            r == (Size { width: 0, height: 0 }, Size { width, height }),
    {
        (Size { width: 0, height: 0 }, Size { width, height })
    }

    /// The position and size of a maximized window: the whole screen but the
    /// dock.
    pub fn maximize(&self, cfg: &Config, screen: &Screen, dock_area: &DockArea, ww: &WindowWrapper, w: Window) -> (r: (Position, Size))
        requires
            layout_inputs_ok(*cfg, *screen, *dock_area),
        ensures
            r.0 == floating_move(*cfg, *screen, *dock_area, true, screen.x, screen.y).0,
            r.1 == (Size {
                width: screen.width,
                height: (screen.height - dock_height(*screen, *dock_area)) as i32,
            }),
    {
        let pos = self.move_window(cfg, screen, dock_area, w, true, screen.x, screen.y);
        match dock_area.as_rect(screen) {
            Some(dock) => {
                let size = self.resize_window(ww, w, screen.width, screen.height - dock.get_size().height).1;
                (pos.0, size)
            },
            None => {
                let size = self.resize_window(ww, w, screen.width, screen.height).1;
                (pos.0, size)
            },
        }
    }

    /// The position and size of a window in monocle: the whole screen.
    pub fn monocle(&self, cfg: &Config, screen: &Screen, dock_area: &DockArea, ww: &WindowWrapper, w: Window) -> (r: (Position, Size))
        requires
            layout_inputs_ok(*cfg, *screen, *dock_area),
        ensures
            r.0 == floating_move(*cfg, *screen, *dock_area, false, screen.x, screen.y).0,
            r.1 == (Size { width: screen.width, height: screen.height }),
    {
        let pos = self.move_window(cfg, screen, dock_area, w, false, screen.x, screen.y);
        let size = self.resize_window(ww, w, screen.width, screen.height).1;
        (pos.0, size)
    }

    /// Snaps the window to an edge of the screen.
    pub fn shift_window(
        &self,
        cfg: &Config,
        screen: &Screen,
        ww: &WindowWrapper,
        dock_area: &DockArea,
        w: Window,
        direction: Direction,
    ) -> (r: Vec<WindowWrapper>)
        requires
            layout_inputs_ok(*cfg, *screen, *dock_area),
        ensures
            r@ == snapped_windows(*cfg, *screen, *dock_area, *ww, direction, false),
    {
        snap_window(cfg, screen, ww, dock_area, direction, false)
    }
}

/// The frame position that the floating layout (or, with `column_master`,
/// the column layout) gives a window moved to `(x, y)`, respecting the dock.
fn layout_move(cfg: &Config, screen: &Screen, dock_area: &DockArea, x: i32, y: i32, column_master: bool) -> (p: Position)
    requires
        layout_inputs_ok(*cfg, *screen, *dock_area),
        -4 * COORD_LIMIT <= x <= 4 * COORD_LIMIT,
        -4 * COORD_LIMIT <= y <= 4 * COORD_LIMIT,
    ensures
        p == (if column_master {
            crate::layout::column_master::column_master_move(*cfg, *screen, *dock_area, true, x, y).0
        } else {
            floating_move(*cfg, *screen, *dock_area, true, x, y).0
        }),
{
    if column_master {
        crate::layout::column_master::ColumnMaster::default().move_window(cfg, screen, dock_area, 0, true, x, y).0
    } else {
        Floating::default().move_window(cfg, screen, dock_area, 0, true, x, y).0
    }
}

fn snap_north(cfg: &Config, screen: &Screen, dock_area: &DockArea, column_master: bool) -> (r: Rect)
    requires
        layout_inputs_ok(*cfg, *screen, *dock_area),
    ensures
        Some(r) == snapped_rect(*cfg, *screen, *dock_area, Direction::North, column_master),
{
    let bw = cfg.border_width;
    let pos = layout_move(cfg, screen, dock_area, screen.x, screen.y, column_master);
    let mut size = Size { width: screen.width - 2 * bw, height: (screen.height) / 2 - 2 * bw };
    if let Some(dock) = dock_area.as_rect(screen) {
        size.height = size.height - dock.get_size().height / 2;
    }
    Rect::new(pos, size)
}

fn snap_east(cfg: &Config, screen: &Screen, dock_area: &DockArea, column_master: bool) -> (r: Rect)
    requires
        layout_inputs_ok(*cfg, *screen, *dock_area),
    ensures
        Some(r) == snapped_rect(*cfg, *screen, *dock_area, Direction::East, column_master),
{
    let bw = cfg.border_width;
    let pos = layout_move(cfg, screen, dock_area, screen.x + screen.width / 2, screen.y, column_master);
    let mut size = Size { width: (screen.width) / 2 - 2 * bw, height: screen.height - bw };
    if let Some(dock) = dock_area.as_rect(screen) {
        size.height = size.height - dock.get_size().height;
    }
    Rect::new(pos, size)
}

fn snap_west(cfg: &Config, screen: &Screen, dock_area: &DockArea, column_master: bool) -> (r: Rect)
    requires
        layout_inputs_ok(*cfg, *screen, *dock_area),
    ensures
        Some(r) == snapped_rect(*cfg, *screen, *dock_area, Direction::West, column_master),
{
    let bw = cfg.border_width;
    let pos = layout_move(cfg, screen, dock_area, screen.x, screen.y, column_master);
    let mut size = Size { width: (screen.width) / 2 - 2 * bw, height: (screen.height) - bw };
    if let Some(dock) = dock_area.as_rect(screen) {
        size.height = size.height - dock.get_size().height;
    }
    Rect::new(pos, size)
}

fn snap_south(cfg: &Config, screen: &Screen, dock_area: &DockArea, column_master: bool) -> (r: Rect)
    requires
        layout_inputs_ok(*cfg, *screen, *dock_area),
    ensures
        Some(r) == snapped_rect(*cfg, *screen, *dock_area, Direction::South, column_master),
{
    let bw = cfg.border_width;
    let mut pos = layout_move(cfg, screen, dock_area, screen.x, screen.height / 2 - bw, column_master);
    let mut size = Size { width: screen.width - 2 * bw, height: (screen.height) / 2 - bw };
    if let Some(dock) = dock_area.as_rect(screen) {
        let offset = dock.get_size().height / 2;
        size.height = size.height - offset;
        pos.y = pos.y + offset;
    }
    Rect::new(pos, size)
}

/// The snapped window, shared by both layouts.
pub fn snap_window(
    cfg: &Config,
    screen: &Screen,
    ww: &WindowWrapper,
    dock_area: &DockArea,
    direction: Direction,
    column_master: bool,
) -> (r: Vec<WindowWrapper>)
    requires
        layout_inputs_ok(*cfg, *screen, *dock_area),
    ensures
        r@ == snapped_windows(*cfg, *screen, *dock_area, *ww, direction, column_master),
{
    let rect = match direction {
        Direction::North => Some(snap_north(cfg, screen, dock_area, column_master)),
        Direction::East => Some(snap_east(cfg, screen, dock_area, column_master)),
        Direction::West => Some(snap_west(cfg, screen, dock_area, column_master)),
        Direction::South => Some(snap_south(cfg, screen, dock_area, column_master)),
        _ => None,
    };
    let mut r: Vec<WindowWrapper> = Vec::new();
    if let Some(rect) = rect {
        r.push(WindowWrapper { window_rect: rect, ..*ww });
    }
    proof {
        assert(r@ =~= snapped_windows(*cfg, *screen, *dock_area, *ww, direction, column_master));
    }
    r
}

} // verus!

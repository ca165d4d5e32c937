use vstd::prelude::*;
use crate::config::{length_in_range, Config};
use crate::geometry::{abs, div_trunc, lemma_div_trunc_bound, lemma_mul_div_trunc_bound, Position, Rect, Size, Window, COORD_LIMIT};
use crate::layout::floating::{dock_height, layout_inputs_ok, snap_window, snapped_windows};
use crate::layout::LayoutTag;
use crate::models::dockarea::DockArea;
use crate::models::screen::Screen;
use crate::models::windowwrapper::WindowWrapper;
use crate::models::Direction;

verus! {

/// The layout with a master window on the left half and the other windows
/// stacked in a column on the right half.
#[derive(Clone, Copy, Debug, PartialEq, Eq, Structural)]
pub struct ColumnMaster {
    pub layout_type: LayoutTag,
}

/// What `move_window` of the column layout gives: like the floating layout,
/// but a frame above the dock is lowered to the dock's height.
pub open spec fn column_master_move(
    cfg: Config,
    screen: Screen,
    dock_area: DockArea,
    respect_dock: bool,
    x: i32,
    y: i32,
) -> (Position, Position) {
    let dh = dock_height(screen, dock_area);
    let y2 = if respect_dock && dock_area.spec_as_rect(screen) is Some && y < dh {
        dh as i32
    } else {
        y
    };
    (
        Position { x, y: y2 },
        Position {
            x: (x + cfg.border_width) as i32,
            y: (y2 + cfg.decoration_height + cfg.border_width) as i32,
        },
    )
}

/// The single window of a workspace takes the whole screen but the outer
/// gaps (none with smart gaps) and the dock.
pub open spec fn column_maximize_spec(cfg: Config, screen: Screen, dock_area: DockArea) -> (Size, Position) {
    let gap: int = if cfg.smart_gaps { 0 } else { cfg.outer_gap as int };
    let dh = dock_height(screen, dock_area);
    let has_dock = dock_area.spec_as_rect(screen) is Some;
    (
        Size {
            width: (screen.width - gap * 2) as i32,
            height: (if has_dock { screen.height - gap * 2 - dh } else { screen.height - gap * 2 }) as i32,
        },
        Position {
            x: (screen.x + gap) as i32,
            y: (if has_dock { screen.y + gap + dh } else { screen.y + gap }) as i32,
        },
    )
}

/// The height of each window in a column of `n` windows.
pub open spec fn column_height_spec(cfg: Config, screen: Screen, dock_area: DockArea, n: int) -> int {
    let h = screen.height - dock_height(screen, dock_area) - 2 * cfg.outer_gap;
    let m = if n > 1 { n } else { 1 };
    let ret = div_trunc(h, m) - 2 * cfg.border_width;
    if n > 2 {
        ret - div_trunc((n - 1) * cfg.inner_gap, n)
    } else {
        ret
    }
}

/// The width of the master window and of the column.
pub open spec fn column_width_spec(cfg: Config, screen: Screen) -> int {
    (div_trunc(screen.width as int, 2) - 2 * cfg.border_width) - (cfg.outer_gap + div_trunc(
        cfg.inner_gap as int,
        2,
    ))
}

/// The rectangle of window `i` of a column of `n` windows.
pub open spec fn column_rect(cfg: Config, screen: Screen, dock_area: DockArea, n: int, i: int) -> Rect {
    let ch = column_height_spec(cfg, screen, dock_area, n);
    let dh = dock_height(screen, dock_area);
    Rect::mk(
        Position {
            x: ((screen.x + div_trunc(screen.width as int, 2)) + cfg.inner_gap) as i32,
            y: (((screen.y + dh) + ch * i) + (2 * cfg.border_width) * i + cfg.outer_gap + (
            cfg.inner_gap * i)) as i32,
        },
        Size { width: column_width_spec(cfg, screen) as i32, height: ch as i32 },
    )
}

/// The rectangle of the master window.
pub open spec fn master_rect(cfg: Config, screen: Screen, dock_area: DockArea) -> Rect {
    let dh = dock_height(screen, dock_area);
    Rect::mk(
        Position {
            x: (screen.x + cfg.outer_gap) as i32,
            y: (screen.y + dh + cfg.outer_gap) as i32,
        },
        Size {
            width: column_width_spec(cfg, screen) as i32,
            height: (screen.height - dh - 2 * cfg.border_width - 2 * cfg.outer_gap) as i32,
        },
    )
}

/// Some window of `s` is not transient.
pub open spec fn has_tiled(s: Seq<WindowWrapper>) -> bool {
    exists|i: int| 0 <= i < s.len() && !s[i].is_trans
}

/// The windows of `s` that go in the column when `w` is the master: those
/// that are not transient and are not `w`, in their order.
pub open spec fn column_windows(s: Seq<WindowWrapper>, w: Window) -> Seq<WindowWrapper>
    decreases s.len(),
{
    if s.len() == 0 {
        s
    } else {
        let rest = column_windows(s.drop_last(), w);
        if !s.last().is_trans && s.last().window != w {
            rest.push(s.last())
        } else {
            rest
        }
    }
}

proof fn lemma_column_windows_len(s: Seq<WindowWrapper>, w: Window)
    ensures
        column_windows(s, w).len() <= s.len(),
    decreases s.len(),
{
    if s.len() > 0 {
        lemma_column_windows_len(s.drop_last(), w);
    }
}

/// What the column layout makes of a workspace when `w` becomes the master:
/// without a non-transient window, `w` alone takes the screen; else the
/// column windows go down the right half, and `w` takes the left half.
pub open spec fn column_place(cfg: Config, screen: Screen, dock_area: DockArea, w: Window, s: Seq<WindowWrapper>) -> Seq<(Window, Rect)> {
    if !has_tiled(s) {
        let (size, pos) = column_maximize_spec(cfg, screen, dock_area);
        seq![(w, Rect::mk(pos, size))]
    } else {
        let c = column_windows(s, w);
        Seq::new(c.len(), |i: int| (c[i].window, column_rect(cfg, screen, dock_area, c.len() as int, i))).push(
            (w, master_rect(cfg, screen, dock_area)),
        )
    }
}

/// The height of a column window lies well within 32 bits, whatever the
/// number of windows.
proof fn lemma_column_bounds(cfg: Config, screen: Screen, dock_area: DockArea, n: int)
    requires
        layout_inputs_ok(cfg, screen, dock_area),
        n >= 0,
    ensures
        -6_000_000 <= column_height_spec(cfg, screen, dock_area, n) <= 6_000_000,
{
    let dh = dock_height(screen, dock_area);
    assert(-2 * COORD_LIMIT <= dh <= 2 * COORD_LIMIT);
    let h = screen.height - dh - 2 * cfg.outer_gap;
    let m = if n > 1 { n } else { 1 };
    lemma_div_trunc_bound(h, m);
    let ig = cfg.inner_gap as int;
    if n > 2 {
        let t = div_trunc((n - 1) * ig, n);
        lemma_div_trunc_bound((n - 1) * ig, n);
        assert(abs((n - 1) * ig) <= n * abs(ig)) by (nonlinear_arith)
            requires
                n > 2,
        ;
        assert(abs(t) <= abs(ig)) by (nonlinear_arith)
            requires
                abs(t) * n <= abs((n - 1) * ig),
                abs((n - 1) * ig) <= n * abs(ig),
                n > 2,
        ;
    }
}

/// A product of a bounded factor and a count stays within `i128`.
proof fn lemma_count_product(a: int, k: int)
    requires
        -10_000_000 <= a <= 10_000_000,
        0 <= k <= 0xffff_ffff_ffff_ffff,
    ensures
        -200_000_000_000_000_000_000_000_000 <= a * k <= 200_000_000_000_000_000_000_000_000,
{
    assert(-200_000_000_000_000_000_000_000_000 <= a * k <= 200_000_000_000_000_000_000_000_000) by (nonlinear_arith)
        requires
            -10_000_000 <= a <= 10_000_000,
            0 <= k <= 0xffff_ffff_ffff_ffff,
    ;
}

impl ColumnMaster {
    pub fn default() -> (c: ColumnMaster)
        ensures
            c.layout_type == LayoutTag::ColumnMaster,
    {
        ColumnMaster { layout_type: LayoutTag::ColumnMaster }
    }

    pub fn get_type(&self) -> (t: LayoutTag)
        ensures
            t == self.layout_type,
    {
        self.layout_type
    }

    pub fn column_maximize(&self, cfg: &Config, w: Window, screen: &Screen, dock_area: &DockArea) -> (r: (Size, Position))
        requires
            layout_inputs_ok(*cfg, *screen, *dock_area),
        ensures
            r == column_maximize_spec(*cfg, *screen, *dock_area),
    {
        let gap = if cfg.smart_gaps { 0 } else { cfg.outer_gap };
        let mut size = Size { width: screen.width - gap * 2, height: screen.height - gap * 2 };
        let mut pos = Position { x: screen.x + gap, y: screen.y + gap };
        match dock_area.as_rect(screen) {
            Some(dock) => {
                size.height = size.height - dock.get_size().height;
                pos.y = pos.y + dock.get_size().height;
                (size, pos)
            },
            None => (size, pos),
        }
    }

    /// The height of each window of a column of `n` windows.
    pub fn column_height(&self, cfg: &Config, screen: &Screen, dock: &DockArea, n: usize) -> (h: i32)
        requires
            layout_inputs_ok(*cfg, *screen, *dock),
        ensures
            h == column_height_spec(*cfg, *screen, *dock, n as int),
    {
        let dock_height = match dock.as_rect(screen) {
            Some(dock_rect) => dock_rect.get_size().height,
            None => 0,
        };
        proof {
            assert(-2 * COORD_LIMIT <= dock_height <= 2 * COORD_LIMIT);
            lemma_column_bounds(*cfg, *screen, *dock, n as int);
        }
        let n = n as i128;
        let divisor: i128 = if n > 1 { n } else { 1 };
        let h = (screen.height as i128) - (dock_height as i128) - 2 * (cfg.outer_gap as i128);
        proof {
            lemma_div_trunc_bound(h as int, divisor as int);
        }
        let mut ret = (h / divisor) - 2 * (cfg.border_width as i128);
        if n > 2 {
            proof {
                lemma_count_product(cfg.inner_gap as int, (n - 1) as int);
                lemma_div_trunc_bound(((n - 1) * (cfg.inner_gap as i128)) as int, n as int);
            }
            ret = ret - ((n - 1) * (cfg.inner_gap as i128)) / n;
        }
        ret as i32
    }

    /// Places the windows of a workspace around the new master `w`.
    pub fn place_window(
        &self,
        cfg: &Config,
        dock_area: &DockArea,
        screen: &Screen,
        w: Window,
        windows: &[WindowWrapper],
    ) -> (r: Vec<(Window, Rect)>)
        requires
            layout_inputs_ok(*cfg, *screen, *dock_area),
        ensures
            r@ == column_place(*cfg, *screen, *dock_area, w, windows@),
    {
        // the windows that are not transient, and among them those that go
        // into the column
        let mut any_tiled = false;
        let mut column: Vec<WindowWrapper> = Vec::new();
        let mut k: usize = 0;
        while k < windows.len()
            invariant
                k <= windows@.len(),
                any_tiled == has_tiled(windows@.take(k as int)),
                column@ == column_windows(windows@.take(k as int), w),
            decreases windows@.len() - k,
        {
            proof {
                assert(windows@.take(k as int + 1).drop_last() =~= windows@.take(k as int));
                assert(windows@.take(k as int + 1).last() == windows@[k as int]);
                if has_tiled(windows@.take(k as int)) {
                    let j = choose|j: int| 0 <= j < k && !windows@.take(k as int)[j].is_trans;
                    assert(windows@.take(k as int + 1)[j] == windows@.take(k as int)[j]);
                }
                let kk = k as int + 1;
                let next = windows@.take(kk);
                if has_tiled(next) && windows@[k as int].is_trans {
                    let j = choose|j: int| 0 <= j < kk && !next[j].is_trans;
                    assert(windows@.take(k as int)[j] == next[j]);
                }
                if !windows@[k as int].is_trans {
                    assert(windows@.take(k as int + 1)[k as int] == windows@[k as int]);
                }
            }
            let ww = windows[k];
            if !ww.is_trans {
                any_tiled = true;
                if ww.window() != w {
                    column.push(ww);
                }
            }
            k = k + 1;
        }
        proof {
            assert(windows@.take(windows@.len() as int) =~= windows@);
            lemma_column_windows_len(windows@, w);
        }
        let dock_height = match dock_area.as_rect(screen) {
            Some(dock_rect) => dock_rect.get_size().height,
            None => 0,
        };
        let mut ret_vec: Vec<(Window, Rect)> = Vec::new();
        let column_width = ((screen.width / 2) - 2 * cfg.border_width) - (cfg.outer_gap + (cfg.inner_gap / 2));
        let column_x = (screen.x + screen.width / 2) + cfg.inner_gap;
        if !any_tiled {
            let (size, pos) = self.column_maximize(cfg, w, screen, dock_area);
            ret_vec.push((w, Rect::new(pos, size)));
            proof {
                assert(ret_vec@ =~= column_place(*cfg, *screen, *dock_area, w, windows@));
            }
            return ret_vec;
        }
        let size = Size {
            width: column_width,
            height: screen.height - dock_height - 2 * cfg.border_width - 2 * cfg.outer_gap,
        };
        let pos = Position { x: screen.x + cfg.outer_gap, y: screen.y + dock_height + cfg.outer_gap };
        let ghost n = column@.len() as int;
        let ghost spec_seq = Seq::new(column@.len(), |i: int| (column@[i].window, column_rect(*cfg, *screen, *dock_area, n, i)));
        let mut index: usize = 0;
        while index < column.len()
            invariant
                n == column@.len(),
                index <= n,
                layout_inputs_ok(*cfg, *screen, *dock_area),
                column_width == column_width_spec(*cfg, *screen),
                column_x == (screen.x + div_trunc(screen.width as int, 2)) + cfg.inner_gap,
                dock_height == crate::layout::floating::dock_height(*screen, *dock_area),
                spec_seq == Seq::new(column@.len(), |i: int| (column@[i].window, column_rect(*cfg, *screen, *dock_area, n, i))),
                ret_vec@ == spec_seq.take(index as int),
            decreases n - index,
        {
            let ch = self.column_height(cfg, screen, dock_area, column.len());
            proof {
                lemma_column_bounds(*cfg, *screen, *dock_area, n);
                assert(-2 * COORD_LIMIT <= dock_height <= 2 * COORD_LIMIT);
                lemma_count_product(ch as int, index as int);
                lemma_count_product(2 * cfg.border_width, index as int);
                lemma_count_product(cfg.inner_gap as int, index as int);
            }
            let i = index as i128;
            let y = (((screen.y as i128) + (dock_height as i128)) + (ch as i128) * i) + (2 * (cfg.border_width as i128)) * i
                + (cfg.outer_gap as i128) + ((cfg.inner_gap as i128) * i);
            let p = Position { x: column_x, y: y as i32 };
            let s = Size { width: column_width, height: ch };
            ret_vec.push((column[index].window(), Rect::new(p, s)));
            proof {
                assert(ret_vec@ =~= spec_seq.take(index as int + 1));
            }
            index = index + 1;
        }
        ret_vec.push((w, Rect::new(pos, size)));
        proof {
            assert(spec_seq.take(n) =~= spec_seq);
            assert(ret_vec@ =~= column_place(*cfg, *screen, *dock_area, w, windows@));
        }
        ret_vec
    }

    pub fn move_window(
        &self,
        cfg: &Config,
        screen: &Screen,
        dock_area: &DockArea,
        w: Window,
        respect_dock: bool,
        x: i32,
        y: i32,
    ) -> (r: (Position, Position))
        requires
            layout_inputs_ok(*cfg, *screen, *dock_area),
            -4 * COORD_LIMIT <= x <= 4 * COORD_LIMIT,
            -4 * COORD_LIMIT <= y <= 4 * COORD_LIMIT,
        ensures
            r == column_master_move(*cfg, *screen, *dock_area, respect_dock, x, y),
    {
        let mut y = y;
        match dock_area.as_rect(screen) {
            Some(dock) => {
                if respect_dock && y < dock.get_size().height {
                    y = dock.get_size().height;
                }
            },
            None => {},
        }
        (
            Position { x, y },
            Position { x: x + cfg.border_width, y: y + cfg.decoration_height + cfg.border_width },
        )
    }

    /// Lays the workspace out again with its newest window as the master;
    /// nothing to do for an empty workspace.
    pub fn reorder(
        &self,
        cfg: &Config,
        focus: Window,
        screen: &Screen,
        dock_area: &DockArea,
        windows: &[WindowWrapper],
    ) -> (r: Vec<(Window, Rect)>)
        requires
            layout_inputs_ok(*cfg, *screen, *dock_area),
        ensures
            windows@.len() == 0 ==> r@.len() == 0,
            windows@.len() > 0 ==> r@ == column_place(
                *cfg,
                *screen,
                *dock_area,
                windows@.last().window,
                windows@.drop_last(),
            ),
    {
        if windows.len() == 0 {
            return Vec::new();
        }
        let focus = windows[windows.len() - 1].window();
        let rest = slice_prefix(windows, windows.len() - 1);
        self.place_window(cfg, dock_area, screen, focus, &rest)
    }

    pub fn resize_window(&self, ww: &WindowWrapper, w: Window, width: i32, height: i32) -> (r: (Size, Size))
        ensures
            r == (Size { width: 0, height: 0 }, Size { width, height }),
    {
        (Size { width: 0, height: 0 }, Size { width, height })
    }

    pub fn maximize(&self, cfg: &Config, screen: &Screen, dock_area: &DockArea, ww: &WindowWrapper, w: Window) -> (r: (Position, Size))
        requires
            layout_inputs_ok(*cfg, *screen, *dock_area),
        ensures
            r.0 == column_master_move(*cfg, *screen, *dock_area, true, screen.x, screen.y).0,
            r.1 == (Size {
                width: screen.width,
                height: (screen.height - dock_height(*screen, *dock_area)) as i32,
            }),
    {
        let pos = self.move_window(cfg, screen, dock_area, w, true, screen.x, screen.y);
        match dock_area.as_rect(screen) {
            Some(dock) => {
                let size = self.resize_window(ww, w, screen.width, screen.height - dock.get_size().height).1;
                (pos.0, size)
            },
            None => {
                let size = self.resize_window(ww, w, screen.width, screen.height).1;
                (pos.0, size)
            },
        }
    }

    pub fn monocle(&self, cfg: &Config, screen: &Screen, dock_area: &DockArea, ww: &WindowWrapper, w: Window) -> (r: (Position, Size))
        requires
            layout_inputs_ok(*cfg, *screen, *dock_area),
        ensures
            r.0 == column_master_move(*cfg, *screen, *dock_area, false, screen.x, screen.y).0,
            r.1 == (Size { width: screen.width, height: screen.height }),
    {
        let pos = self.move_window(cfg, screen, dock_area, w, false, screen.x, screen.y);
        let size = self.resize_window(ww, w, screen.width, screen.height).1;
        (pos.0, size)
    }

    /// Snaps the window to an edge of the screen.
    pub fn shift_window(
        &self,
        cfg: &Config,
        screen: &Screen,
        ww: &WindowWrapper,
        dock_area: &DockArea,
        w: Window,
        direction: Direction,
    ) -> (r: Vec<WindowWrapper>)
        requires
            layout_inputs_ok(*cfg, *screen, *dock_area),
        ensures
            r@ == snapped_windows(*cfg, *screen, *dock_area, *ww, direction, true),
    {
        snap_window(cfg, screen, ww, dock_area, direction, true)
    }
}

/// The first `n` windows, copied.
fn slice_prefix(windows: &[WindowWrapper], n: usize) -> (r: Vec<WindowWrapper>)
    requires
        n <= windows@.len(),
    ensures
        r@ == windows@.take(n as int),
{
    let mut r: Vec<WindowWrapper> = Vec::new();
    let mut i: usize = 0;
    while i < n
        invariant
            i <= n,
            n <= windows@.len(),
            r@ == windows@.take(i as int),
        decreases n - i,
    {
        r.push(windows[i]);
        proof {
            assert(r@ =~= windows@.take(i as int + 1));
        }
        i = i + 1;
    }
    r
}

} // verus!

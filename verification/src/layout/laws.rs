//! What the layouts' arrangements look like, whatever the screen, the dock,
//! the configuration and the windows.
use vstd::prelude::*;
use crate::config::Config;
use crate::geometry::{abs, div_trunc, lemma_div_trunc_bound, lemma_mul_div_trunc_bound, Window, COORD_LIMIT};
use crate::layout::column_master::{column_height_spec, column_place, column_windows, has_tiled};
use crate::layout::floating::{dock_height, layout_inputs_ok, snapped_rect};
use crate::layout::{spec_reorder, LayoutTag};
use crate::models::dockarea::DockArea;
use crate::models::screen::Screen;
use crate::models::windowwrapper::WindowWrapper;
use crate::models::Direction;

verus! {

/// A step `i * (c / n)` with `0 <= i < n` goes from `c` toward zero and no
/// further.
proof fn lemma_step_toward_zero(c: int, n: int, i: int)
    requires
        n > 0,
        0 <= i < n,
    ensures
        c >= 0 ==> 0 <= c - i * div_trunc(c, n) <= c,
        c < 0 ==> c <= c - i * div_trunc(c, n) <= 0,
{
    lemma_div_trunc_bound(c, n);
    lemma_mul_div_trunc_bound(c, n, i);
    let q = div_trunc(c, n);
    if c >= 0 {
        assert(i * q >= 0) by (nonlinear_arith)
            requires
                i >= 0,
                q >= 0,
        ;
    } else {
        assert(i * q <= 0) by (nonlinear_arith)
            requires
                i >= 0,
                q <= 0,
        ;
    }
}

/// The floating layout stacks `n` windows as a cascade: the newest window
/// comes first, at the front position, and window `i` lies `i` steps of
/// (front position / `n`) up and to the left of it; all have the size of
/// the first, and the windows come newest first.
pub proof fn law_floating_cascade(cfg: Config, screen: Screen, dock_area: DockArea, s: Seq<WindowWrapper>)
    requires
        s.len() > 0,
    ensures
        ({
            let r = spec_reorder(LayoutTag::Floating, cfg, screen, dock_area, s);
            let n = s.len() as int;
            let front = r[0].1.pos();
            &&& r.len() == n
            &&& forall|i: int| 0 <= i < n ==> {
                &&& (#[trigger] r[i]).0 == s[n - 1 - i].window
                &&& r[i].1.pos().x == front.x - i * div_trunc(front.x as int, n)
                &&& r[i].1.pos().y == front.y - i * div_trunc(front.y as int, n)
                &&& r[i].1.sz() == r[0].1.sz()
            }
        }),
{
    let r = spec_reorder(LayoutTag::Floating, cfg, screen, dock_area, s);
    let n = s.len() as int;
    assert forall|i: int| 0 <= i < n implies {
        &&& (#[trigger] r[i]).0 == s[n - 1 - i].window
        &&& r[i].1.pos().x == r[0].1.pos().x - i * div_trunc(r[0].1.pos().x as int, n)
        &&& r[i].1.pos().y == r[0].1.pos().y - i * div_trunc(r[0].1.pos().y as int, n)
        &&& r[i].1.sz() == r[0].1.sz()
    } by {
        let c = crate::layout::floating::stack_center(cfg, screen, dock_area);
        lemma_step_toward_zero(c.x as int, n, i);
        lemma_step_toward_zero(c.y as int, n, i);
        lemma_step_toward_zero(c.x as int, n, 0);
        lemma_step_toward_zero(c.y as int, n, 0);
    }
}

/// A window snapped east takes the right half of the screen: its left edge
/// is the middle of the screen, and it has the size and the top of the
/// window snapped west, which starts at the screen's left edge.
pub proof fn law_snap_east_right_half(cfg: Config, screen: Screen, dock_area: DockArea, column_master: bool)
    requires
        layout_inputs_ok(cfg, screen, dock_area),
    ensures
        ({
            let e = snapped_rect(cfg, screen, dock_area, Direction::East, column_master)->0;
            let w = snapped_rect(cfg, screen, dock_area, Direction::West, column_master)->0;
            &&& snapped_rect(cfg, screen, dock_area, Direction::East, column_master) is Some
            &&& snapped_rect(cfg, screen, dock_area, Direction::West, column_master) is Some
            &&& e.pos().x == screen.x + div_trunc(screen.width as int, 2)
            &&& w.pos().x == screen.x
            &&& e.pos().y == w.pos().y
            &&& e.sz() == w.sz()
        }),
{
    assert(-COORD_LIMIT <= screen.x <= COORD_LIMIT);
    lemma_div_trunc_bound(screen.width as int, 2);
}

/// The height of a column window fits in 32 bits.
proof fn lemma_height_fits(cfg: Config, screen: Screen, dock_area: DockArea, n: int)
    requires
        layout_inputs_ok(cfg, screen, dock_area),
        n >= 0,
    ensures
        -6_000_000 <= column_height_spec(cfg, screen, dock_area, n) <= 6_000_000,
{
    let dh = dock_height(screen, dock_area);
    assert(-2 * COORD_LIMIT <= dh <= 2 * COORD_LIMIT);
    let h = screen.height - dh - 2 * cfg.outer_gap;
    let m = if n > 1 { n } else { 1 };
    lemma_div_trunc_bound(h, m);
    let ig = cfg.inner_gap as int;
    if n > 2 {
        let t = div_trunc((n - 1) * ig, n);
        lemma_div_trunc_bound((n - 1) * ig, n);
        assert(abs((n - 1) * ig) <= n * abs(ig)) by (nonlinear_arith)
            requires
                n > 2,
        ;
        assert(abs(t) <= abs(ig)) by (nonlinear_arith)
            requires
                abs(t) * n <= abs((n - 1) * ig),
                abs((n - 1) * ig) <= n * abs(ig),
                n > 2,
        ;
    }
}

/// The exact top of column window `j`, before it is written in 32 bits.
spec fn column_top(cfg: Config, screen: Screen, dock_area: DockArea, n: int, j: int) -> int {
    let ch = column_height_spec(cfg, screen, dock_area, n);
    (((screen.y + dock_height(screen, dock_area)) + ch * j) + (2 * cfg.border_width) * j + cfg.outer_gap + (cfg.inner_gap * j))
}

proof fn lemma_column_top_step(cfg: Config, screen: Screen, dock_area: DockArea, n: int, j: int)
    ensures
        column_top(cfg, screen, dock_area, n, j + 1) == column_top(cfg, screen, dock_area, n, j)
            + column_height_spec(cfg, screen, dock_area, n) + 2 * cfg.border_width + cfg.inner_gap,
{
    let ch = column_height_spec(cfg, screen, dock_area, n);
    let b = 2 * cfg.border_width;
    let g = cfg.inner_gap as int;
    assert(ch * (j + 1) == ch * j + ch) by (nonlinear_arith);
    assert(b * (j + 1) == b * j + b) by (nonlinear_arith);
    assert(g * (j + 1) == g * j + g) by (nonlinear_arith);
}

/// Where the sums stay in 32 bits, the column windows' tops are exact.
proof fn lemma_column_tops_exact(cfg: Config, screen: Screen, dock_area: DockArea, w: Window, s: Seq<WindowWrapper>, j: int)
    requires
        layout_inputs_ok(cfg, screen, dock_area),
        has_tiled(s),
        0 <= j < column_windows(s, w).len(),
        forall|k: int|
            0 <= k < j ==> i32::MIN <= (#[trigger] column_place(cfg, screen, dock_area, w, s)[k]).1.pos().y
                + column_place(cfg, screen, dock_area, w, s)[k].1.sz().height + 2 * cfg.border_width + cfg.inner_gap
                <= i32::MAX,
    ensures
        column_place(cfg, screen, dock_area, w, s)[j].1.pos().y == column_top(cfg, screen, dock_area, column_windows(s, w).len() as int, j),
    decreases j,
{
    let n = column_windows(s, w).len() as int;
    let r = column_place(cfg, screen, dock_area, w, s);
    lemma_height_fits(cfg, screen, dock_area, n);
    if j == 0 {
        let dh = dock_height(screen, dock_area);
        assert(-2 * COORD_LIMIT <= dh <= 2 * COORD_LIMIT);
        let ch = column_height_spec(cfg, screen, dock_area, n);
        assert(ch * 0 == 0);
        assert((2 * cfg.border_width) * 0 == 0);
        assert(cfg.inner_gap * 0 == 0);
        assert(column_top(cfg, screen, dock_area, n, 0) == screen.y + dh + cfg.outer_gap);
    } else {
        lemma_column_tops_exact(cfg, screen, dock_area, w, s, j - 1);
        lemma_column_top_step(cfg, screen, dock_area, n, j - 1);
        assert(i32::MIN <= r[j - 1].1.pos().y + r[j - 1].1.sz().height + 2 * cfg.border_width + cfg.inner_gap <= i32::MAX);
    }
}

/// In the column layout, each column window starts where the one above it
/// ends, past two borders and the inner gap: window `i + 1`'s top is window
/// `i`'s top plus its height, `2 * border_width` and `inner_gap`; all column
/// windows have the same left edge and the same size, and the master comes
/// last.  This holds wherever these sums stay within 32 bits.
pub proof fn law_column_windows_stack(cfg: Config, screen: Screen, dock_area: DockArea, w: Window, s: Seq<WindowWrapper>)
    requires
        layout_inputs_ok(cfg, screen, dock_area),
        has_tiled(s),
        forall|k: int|
            0 <= k < column_windows(s, w).len() ==> i32::MIN <= (#[trigger] column_place(cfg, screen, dock_area, w, s)[k]).1.pos().y
                + column_place(cfg, screen, dock_area, w, s)[k].1.sz().height + 2 * cfg.border_width + cfg.inner_gap
                <= i32::MAX,
    ensures
        ({
            let r = column_place(cfg, screen, dock_area, w, s);
            let n = column_windows(s, w).len() as int;
            &&& r.len() == n + 1
            &&& r[n].0 == w
            &&& forall|i: int| 0 <= i < n - 1 ==> {
                &&& (#[trigger] r[i + 1]).1.pos().y == r[i].1.pos().y + r[i].1.sz().height + 2 * cfg.border_width + cfg.inner_gap
                &&& r[i + 1].1.pos().x == r[i].1.pos().x
                &&& r[i + 1].1.sz() == r[i].1.sz()
            }
        }),
{
    let r = column_place(cfg, screen, dock_area, w, s);
    let n = column_windows(s, w).len() as int;
    lemma_height_fits(cfg, screen, dock_area, n);
    assert forall|i: int| 0 <= i < n - 1 implies {
        &&& (#[trigger] r[i + 1]).1.pos().y == r[i].1.pos().y + r[i].1.sz().height + 2 * cfg.border_width + cfg.inner_gap
        &&& r[i + 1].1.pos().x == r[i].1.pos().x
        &&& r[i + 1].1.sz() == r[i].1.sz()
    } by {
        lemma_column_tops_exact(cfg, screen, dock_area, w, s, i);
        lemma_column_tops_exact(cfg, screen, dock_area, w, s, i + 1);
        lemma_column_top_step(cfg, screen, dock_area, n, i);
    }
}

/// `n * (a / n)` lies within `n` below `a`, for `a >= 0`.
proof fn lemma_div_floor(a: int, n: int)
    requires
        a >= 0,
        n > 0,
    ensures
        a - n < n * div_trunc(a, n) <= a,
{
    let q = a / n;
    assert(a - n < n * q <= a) by (nonlinear_arith)
        requires
            a >= 0,
            n > 0,
            q == a / n,
    ;
}

/// The column windows share out the usable height of the screen (its
/// height without the dock and the two outer gaps): their heights, two
/// borders each and the inner gaps between them add up to it, up to the
/// rounding of one pixel per window.  The first column window starts at
/// the top of the usable height, at the middle of the screen plus the inner
/// gap, and the master at the top left of the usable area.
pub proof fn law_column_fills_height(cfg: Config, screen: Screen, dock_area: DockArea, w: Window, s: Seq<WindowWrapper>)
    requires
        layout_inputs_ok(cfg, screen, dock_area),
        has_tiled(s),
        column_windows(s, w).len() > 2,
        screen.height - dock_height(screen, dock_area) - 2 * cfg.outer_gap >= 0,
        cfg.inner_gap >= 0,
    ensures
        ({
            let r = column_place(cfg, screen, dock_area, w, s);
            let n = column_windows(s, w).len() as int;
            let usable = screen.height - dock_height(screen, dock_area) - 2 * cfg.outer_gap;
            let used = n * (r[0].1.sz().height + 2 * cfg.border_width) + (n - 1) * cfg.inner_gap;
            &&& usable - n < used < usable + n
            &&& r[0].1.pos().y == screen.y + dock_height(screen, dock_area) + cfg.outer_gap
            &&& r[0].1.pos().x == screen.x + div_trunc(screen.width as int, 2) + cfg.inner_gap
            &&& r[n].1.pos().x == screen.x + cfg.outer_gap
            &&& r[n].1.pos().y == screen.y + dock_height(screen, dock_area) + cfg.outer_gap
        }),
{
    let r = column_place(cfg, screen, dock_area, w, s);
    let n = column_windows(s, w).len() as int;
    let dh = dock_height(screen, dock_area);
    assert(-2 * COORD_LIMIT <= dh <= 2 * COORD_LIMIT);
    let h = screen.height - dh - 2 * cfg.outer_gap;
    lemma_height_fits(cfg, screen, dock_area, n);
    let ig = cfg.inner_gap as int;
    let bw = cfg.border_width as int;
    let q = div_trunc(h, n);
    let t = div_trunc((n - 1) * ig, n);
    lemma_div_floor(h, n);
    assert((n - 1) * ig >= 0) by (nonlinear_arith)
        requires
            n > 2,
            ig >= 0,
    ;
    lemma_div_floor((n - 1) * ig, n);
    let ch = column_height_spec(cfg, screen, dock_area, n);
    assert(ch == q - 2 * bw - t);
    assert(r[0].1.sz().height == ch);
    assert(n * (ch + 2 * bw) + (n - 1) * ig == n * q - n * t + (n - 1) * ig) by (nonlinear_arith)
        requires
            ch == q - 2 * bw - t,
    ;
    let z = column_height_spec(cfg, screen, dock_area, n);
    assert(z * 0 == 0);
    assert((2 * cfg.border_width) * 0 == 0);
    assert(cfg.inner_gap * 0 == 0);
    assert(-COORD_LIMIT <= screen.x <= COORD_LIMIT);
    lemma_div_trunc_bound(screen.width as int, 2);
}

/// The front window of the floating stack is half the usable screen (the
/// screen without the dock) wide and high, less two borders, and sits in
/// its middle: its centre is the middle of the usable screen.
pub proof fn law_floating_front_centred(cfg: Config, screen: Screen, dock_area: DockArea, s: Seq<WindowWrapper>)
    requires
        layout_inputs_ok(cfg, screen, dock_area),
        s.len() > 0,
    ensures
        ({
            let r = spec_reorder(LayoutTag::Floating, cfg, screen, dock_area, s);
            let usable_h = screen.height - dock_height(screen, dock_area);
            let front = r[0].1;
            &&& front.sz().width == div_trunc(screen.width as int, 2) - 2 * cfg.border_width
            &&& front.sz().height == div_trunc(usable_h, 2) - 2 * cfg.border_width
            &&& front.pos().x + div_trunc(front.sz().width as int, 2) == div_trunc(screen.width as int, 2)
            &&& front.pos().y + div_trunc(front.sz().height as int, 2) == div_trunc(usable_h, 2)
        }),
{
    let dh = dock_height(screen, dock_area);
    assert(-2 * COORD_LIMIT <= dh <= 2 * COORD_LIMIT);
    let usable_h = screen.height - dh;
    lemma_div_trunc_bound(screen.width as int, 2);
    lemma_div_trunc_bound(usable_h, 2);
    let sz = crate::layout::floating::stack_size(cfg, screen, dock_area);
    lemma_div_trunc_bound(sz.width as int, 2);
    lemma_div_trunc_bound(sz.height as int, 2);
    let n = s.len() as int;
    lemma_step_toward_zero(crate::layout::floating::stack_center(cfg, screen, dock_area).x as int, n, 0);
    lemma_step_toward_zero(crate::layout::floating::stack_center(cfg, screen, dock_area).y as int, n, 0);
}

} // verus!

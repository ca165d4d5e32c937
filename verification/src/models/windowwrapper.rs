use vstd::prelude::*;
use crate::geometry::{Position, Rect, Size, Window};
use crate::models::WindowState;

verus! {

/// A managed window and what the window manager remembers of it.
///
/// `toc` is the moment the window was taken into management, as a count of
/// clock ticks: a workspace keeps its windows ordered by it.
#[derive(Clone, Copy, Debug, PartialEq, Eq, Structural)]
pub struct WindowWrapper {
    pub window: Window,
    pub window_rect: Rect,
    pub hidden: bool,
    pub is_trans: bool,
    pub restore_position: Position,
    pub restore_size: Size,
    pub current_state: WindowState,
    pub previous_state: WindowState,
    pub toc: u64,
}

/// The reading of the system's monotonic clock (`CLOCK_MONOTONIC`), as
/// whole seconds and nanoseconds, through `nix::time::clock_gettime`;
/// `None` on the call's error.  Nothing is stated of the values: they
/// depend on the time.  (POSIX has this clock never go back; two readings
/// are not related by any contract here.)
#[verifier::external_body]
fn monotonic_now() -> (r: Option<(i64, i64)>) {
    match nix::time::clock_gettime(nix::time::ClockId::CLOCK_MONOTONIC) {
        Ok(ts) => Some((ts.tv_sec() as i64, ts.tv_nsec() as i64)),
        Err(_) => None,
    }
}

/// The current reading of the monotonic clock in nanoseconds, `u64::MAX`
/// once that no longer fits, and zero when the clock cannot be read.
pub(crate) fn clock_ticks() -> (t: u64) {
    match monotonic_now() {
        Some((secs, nanos)) => {
            if secs < 0 || nanos < 0 || nanos >= 1_000_000_000 {
                0
            } else if secs > 18_000_000_000 {
                u64::MAX
            } else {
                let s = secs as u64;
                let n = nanos as u64;
                assert(s * 1_000_000_000 <= 18_000_000_000_000_000_000) by (nonlinear_arith)
                    requires
                        s <= 18_000_000_000,
                ;
                s * 1_000_000_000 + n
            }
        },
        None => 0,
    }
}

/// A time stamp for a window taken into management after one stamped
/// `after`: the clock's reading where it stands past `after`, else the
/// tick after `after`.  Stamps so handed out never go back.
pub fn next_toc(after: u64) -> (t: u64)
    ensures
        t >= after,
        after < u64::MAX ==> t > after,
{
    let now = clock_ticks();
    if now > after {
        now
    } else if after < u64::MAX {
        after + 1
    } else {
        after
    }
}

impl WindowWrapper {
    /// The wrapper that `new` builds, taken into management at `toc`.
    pub open spec fn spec_new(window: Window, window_rect: Rect, is_trans: bool, toc: u64) -> WindowWrapper {
        WindowWrapper {
            window,
            window_rect,
            hidden: false,
            is_trans,
            restore_position: Position { x: 0, y: 0 },
            restore_size: window_rect.sz(),
            current_state: WindowState::Free,
            previous_state: WindowState::Free,
            toc,
        }
    }

    /// A new wrapper, taken into management now.
    pub fn new(window: Window, window_rect: Rect, is_trans: bool) -> (ww: WindowWrapper)
        ensures
            ww == WindowWrapper::spec_new(window, window_rect, is_trans, ww.toc),
    {
        let toc = clock_ticks();
        Self::new_at(window, window_rect, is_trans, toc)
    }

    /// A new wrapper, taken into management at `toc`.
    pub fn new_at(window: Window, window_rect: Rect, is_trans: bool, toc: u64) -> (ww: WindowWrapper)
        ensures
            ww == WindowWrapper::spec_new(window, window_rect, is_trans, toc),
    {
        let restore_size = window_rect.get_size();
        WindowWrapper {
            window,
            window_rect,
            hidden: false,
            is_trans,
            restore_position: Position { x: 0, y: 0 },
            restore_size,
            current_state: WindowState::Free,
            previous_state: WindowState::Free,
            toc,
        }
    }

    pub fn set_window_state(&mut self, state: WindowState)
        ensures
            *final(self) == (WindowWrapper {
                previous_state: old(self).current_state,
                current_state: state,
                ..*old(self)
            }),
    {
        self.previous_state = self.current_state;
        self.current_state = state;
    }

    pub fn restore_prev_state(&mut self)
        ensures
            *final(self) == (WindowWrapper {
                previous_state: old(self).current_state,
                current_state: old(self).previous_state,
                ..*old(self)
            }),
    {
        let temp = self.current_state;
        self.current_state = self.previous_state;
        self.previous_state = temp;
    }

    pub fn set_position(&mut self, pos: Position)
        ensures
            *final(self) == (WindowWrapper {
                window_rect: Rect::mk(pos, old(self).window_rect.sz()),
                ..*old(self)
            }),
    {
        self.window_rect = Rect::new(pos, self.window_rect.get_size());
    }

    pub fn window(&self) -> (w: Window)
        ensures
            w == self.window,
    {
        self.window
    }

    /// Gives the window a new size; the old size becomes the size to
    /// restore.
    pub fn set_size(&mut self, size: Size)
        ensures
            *final(self) == (WindowWrapper {
                restore_size: old(self).window_rect.sz(),
                window_rect: Rect::mk(old(self).window_rect.pos(), size),
                ..*old(self)
            }),
    {
        self.restore_size = self.get_size();
        self.window_rect = Rect::new(self.window_rect.get_position(), size);
    }

    pub fn get_size(&self) -> (s: Size)
        ensures
            s == self.window_rect.sz(),
    {
        self.window_rect.get_size()
    }

    pub fn get_position(&self) -> (p: Position)
        ensures
            p == self.window_rect.pos(),
    {
        self.window_rect.get_position()
    }

    pub fn save_restore_position(&mut self)
        ensures
            *final(self) == (WindowWrapper {
                restore_position: old(self).window_rect.pos(),
                ..*old(self)
            }),
    {
        self.restore_position = self.get_position();
    }

    pub fn get_restore_position(&self) -> (p: Position)
        ensures
            p == self.restore_position,
    {
        self.restore_position
    }

    pub fn save_restore_size(&mut self)
        ensures
            *final(self) == (WindowWrapper {
                restore_size: old(self).window_rect.sz(),
                ..*old(self)
            }),
    {
        self.restore_size = self.get_size();
    }

    pub fn get_restore_size(&self) -> (s: Size)
        ensures
            s == self.restore_size,
    {
        self.restore_size
    }
}

} // verus!

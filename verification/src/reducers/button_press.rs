//! A pointer button is pressed.
use vstd::prelude::*;
use crate::action::Action;
use crate::config::{Config, MOD4_MASK};
use crate::geometry::{in_range, Geometry, Window};
use crate::state::State;
use crate::wm::sound;

verus! {

/// The first pointer button.
pub const BUTTON1: u32 = 1;

/// A pointer button is pressed; the fields hold what the X server reports,
/// the geometry of the window among them.
#[derive(Clone, Copy, Debug)]
pub struct ButtonPress {
    pub win: Window,
    pub x_root: i32,
    pub y_root: i32,
    pub button: u32,
    /// The modifier mask.
    pub state: u32,
    pub geometry: Geometry,
}

/// The positions of the press lie in the computable range.
pub open spec fn press_in_range(ev: ButtonPress) -> bool {
    &&& in_range(ev.x_root as int)
    &&& in_range(ev.y_root as int)
    &&& in_range(ev.geometry.x as int)
    &&& in_range(ev.geometry.y as int)
}

/// A drag may start here: the pointer's position, and the window's position
/// and size, are kept; the first button with Mod4 held raises the window.
pub open spec fn pressed(old: State, new: State, ev: ButtonPress, acts: Seq<Action>, new_acts: Seq<Action>) -> bool {
    &&& new == (State {
        drag_start_pos: (ev.x_root, ev.y_root),
        drag_start_frame_pos: (ev.geometry.x, ev.geometry.y),
        drag_start_frame_size: (ev.geometry.width, ev.geometry.height),
        ..old
    })
    &&& new_acts == if ev.button == BUTTON1 && (ev.state & MOD4_MASK) == MOD4_MASK {
        acts.push(Action::RaiseWindow(ev.win))
    } else {
        acts
    }
}

/// Answers a button press; see `pressed`.
pub fn button_press(state: &mut State, cfg: &Config, ev: &ButtonPress, actions: &mut Vec<Action>)
    requires
        sound(*old(state), *cfg),
        press_in_range(*ev),
    ensures
        sound(*final(state), *cfg),
        pressed(*old(state), *final(state), *ev, old(actions)@, final(actions)@),
{
    state.drag_start_pos = (ev.x_root, ev.y_root);
    state.drag_start_frame_pos = (ev.geometry.x, ev.geometry.y);
    state.drag_start_frame_size = (ev.geometry.width, ev.geometry.height);
    if ev.button == BUTTON1 && (ev.state & MOD4_MASK) == MOD4_MASK {
        actions.push(Action::RaiseWindow(ev.win));
    }
}

} // verus!

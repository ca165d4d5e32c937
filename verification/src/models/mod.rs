pub mod dockarea;
pub mod internal_action;
pub mod monitor;
pub mod screen;
pub mod snapping_region;
pub mod window_type;
pub mod windowwrapper;
pub mod workspace;
pub mod client_map;

use vstd::prelude::*;

verus! {

/// The eight directions in which a window can be snapped or focus moved.
#[derive(Clone, Copy, Debug, PartialEq, Eq, Structural)]
pub enum Direction {
    North,
    NorthEast,
    East,
    SouthEast,
    South,
    SouthWest,
    West,
    NorthWest,
}

/// What a managed window currently is.
#[derive(Clone, Copy, Debug, PartialEq, Eq, Structural)]
pub enum WindowState {
    Snapped(Direction),
    Maximized,
    Monocle,
    Free,
    Tiled,
    Destroy,
}

} // verus!

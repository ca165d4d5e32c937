//! Hadlock: the state, layouts and event handling of a tiling and stacking
//! window manager for X.
use vstd::prelude::*;

pub mod action;
pub mod config;
pub mod focus;
pub mod geometry;
pub mod keys;
pub mod laws;
pub mod layout;
pub mod models;
pub mod reactor;
pub mod reducers;
pub mod state;
pub mod wm;

verus! {
} // verus!

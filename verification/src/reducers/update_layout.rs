//! The layout is to be applied again.
use vstd::prelude::*;
use crate::config::Config;
use crate::reducers::key_press::{reorder_if_tiling, reordered_if_tiling};
use crate::state::State;
use crate::wm::sound;

verus! {

/// Arranges the current workspace anew when its layout tiles.
pub fn update_layout(state: &mut State, cfg: &Config)
    requires
        sound(*old(state), *cfg),
    ensures
        sound(*final(state), *cfg),
        reordered_if_tiling(*old(state), *final(state), *cfg),
{
    reorder_if_tiling(state, cfg);
}

} // verus!

use vstd::prelude::*;
use crate::geometry::Window;

verus! {

/// A request that the window manager sends to itself.
#[derive(Clone, Copy, Debug, PartialEq, Eq, Structural)]
pub enum InternalAction {
    Focus,
    FocusSpecific(Window),
    _Destroy(Window),
    UpdateLayout,
}

} // verus!

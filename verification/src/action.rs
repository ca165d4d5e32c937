//! The effects on the X server and the system that the window manager's
//! decisions call for.  The program around the library carries them out.
use vstd::prelude::*;
use crate::geometry::{Color, Position, Size, Window};
use crate::layout::LayoutTag;

verus! {

/// The changes that a `ConfigureRequest` asks for.
#[derive(Clone, Copy, Debug, PartialEq, Eq, Structural)]
pub struct WindowChanges {
    pub x: i32,
    pub y: i32,
    pub width: i32,
    pub height: i32,
    pub border_width: i32,
    pub sibling: Window,
    pub stack_mode: i32,
}

/// One effect.
#[derive(Clone, Debug, PartialEq, Eq)]
pub enum Action {
    MapWindow(Window),
    UnmapWindow(Window),
    TakeFocus(Window),
    RaiseWindow(Window),
    /// Selects the pointer motion and substructure redirect events of a
    /// dock.
    SelectDockInput(Window),
    ConfigureWindow(Window, i64, WindowChanges),
    /// Sets the `_NET_WM_STATE` atoms of a window.
    SetWindowStates(Window, Vec<u64>),
    /// Starts a program with its arguments.
    Spawn(String, Vec<String>),
    Exit,
    /// Tells the user that the layout changed.
    NotifyLayout(LayoutTag),
    /// Asks for the layout to be applied again.
    UpdateLayout,
    UpdateDesktops(u32),
    CenterCursor(Window),
    MoveCursor(Position),
    AddToSaveSet(Window),
    AddToRootNetClientList(Window),
    SetBorderWidth(Window, i32),
    SetBorderColor(Window, Color),
    MoveWindow(Window, Position),
    ResizeWindow(Window, Size),
    SubscribeToEvents(Window),
    /// Gives the focus to a window: grabs its buttons and keys, takes the
    /// focus, and draws its border (`true`: with the border width).
    SetFocus(Window, bool),
    /// Takes the focus from a window, whose size is given.
    UnsetFocus(Window, Size),
    /// Kills a window, and then gives the root window the client list of
    /// the state.
    KillWindow(Window),
    Flush,
}

} // verus!

use vstd::prelude::*;

verus! {

/// The `_NET_WM_WINDOW_TYPE` of a window.
#[derive(Clone, Copy, Debug, PartialEq, Eq, Structural)]
pub enum WindowType {
    Desktop,
    Dock,
    Toolbar,
    Menu,
    Utility,
    Splash,
    Dialog,
    Normal,
}

impl WindowType {
    pub open spec fn spec_name(self) -> Seq<char> {
        match self {
            WindowType::Desktop => "Desktop"@,
            WindowType::Dock => "Dock"@,
            WindowType::Toolbar => "Toolbar"@,
            WindowType::Dialog => "Dialog"@,
            WindowType::Menu => "Menu"@,
            WindowType::Splash => "Splash"@,
            WindowType::Utility => "Utility"@,
            WindowType::Normal => "Normal"@,
        }
    }

    /// The name of the window type.
    pub fn get_name(&self) -> (name: String)
        ensures
            name@ == self.spec_name(),
    {
        match self {
            WindowType::Desktop => "Desktop".to_string(),
            WindowType::Dock => "Dock".to_string(),
            WindowType::Toolbar => "Toolbar".to_string(),
            WindowType::Dialog => "Dialog".to_string(),
            WindowType::Menu => "Menu".to_string(),
            WindowType::Splash => "Splash".to_string(),
            WindowType::Utility => "Utility".to_string(),
            WindowType::Normal => "Normal".to_string(),
        }
    }
}

} // verus!

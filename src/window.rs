//! The state of the main window as a profile records it.
use vstd::prelude::*;

verus! {

/// How the main window is shown.
#[derive(Clone, Copy, Debug, PartialEq, Eq, Structural)]
pub enum WindowState {
    Maximized,
    FullScreen,
    Normal,
}

impl WindowState {
    /// The state of a window from what it reports: maximized wins over full
    /// screen, and a window that is neither is normal.
    pub fn from_flags(is_maximized: bool, is_fullscreen: bool) -> (r: WindowState)
        ensures
            r == (if is_maximized {
                WindowState::Maximized
            } else if is_fullscreen {
                WindowState::FullScreen
            } else {
                WindowState::Normal
            }),
    {
        if is_maximized {
            WindowState::Maximized
        } else if is_fullscreen {
            WindowState::FullScreen
        } else {
            WindowState::Normal
        }
    }
}

} // verus!

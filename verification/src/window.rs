//! Whether the observer's window is shown. Events that only serve the display
//! are held back while it is hidden.

use vstd::prelude::*;

verus! {

/// The visibility of the observer's window.
#[derive(Clone, Copy, Debug, PartialEq, Eq)]
pub struct Window {
    pub visible: bool,
}

impl Window {
    /// A window that is shown.
    pub fn new() -> (r: Self)
        ensures
            r.visible,
    {
        Window { visible: true }
    }
}

pub fn is_window_visible(window: &Window) -> (r: bool)
    ensures
        r == window.visible,
{
    window.visible
}

/// The handle of the observer's window: there is none to give, the window is
/// reached through its visibility alone.
pub fn get_window_handle() -> () {
    ()
}

/// Records that the window is now shown, or hidden.
pub fn set_window_visible(window: &mut Window, visible: bool)
    ensures
        final(window).visible == visible,
{
    window.visible = visible;
}

pub fn hide_window(window: &mut Window)
    ensures
        !final(window).visible,
{
    set_window_visible(window, false);
}

pub fn show_window(window: &mut Window)
    ensures
        final(window).visible,
{
    set_window_visible(window, true);
}

} // verus!

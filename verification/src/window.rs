//! Window-facing metadata: the editor size the plugin asks the host for,
//! and the parent-window handle as a tagged value, one variant per
//! platform, so the rest of the code never touches a raw pointer.

use vstd::prelude::*;

verus! {

/// Logical width of the editor window, in pixels.
pub const WINDOW_WIDTH: i16 = 1024;

/// Logical height of the editor window, in pixels.
pub const WINDOW_HEIGHT: i16 = 512;

/// The size the plugin reports to the host: width, then height.
pub fn ui_size() -> (size: (i16, i16))
    ensures
        size.0 == WINDOW_WIDTH,
        size.1 == WINDOW_HEIGHT,
{
    (WINDOW_WIDTH, WINDOW_HEIGHT)
}

/// The parent window the host hands over, with the native handle carried
/// as a plain integer. The platform adapter turns it back into the
/// toolkit's own handle type at the window boundary.
#[derive(Clone, Copy, PartialEq, Eq, Structural, Debug)]
pub enum ParentWindow {
    /// An NSView pointer on macOS.
    MacOs(usize),
    /// An HWND on Windows.
    Windows(usize),
    /// An XCB window id on X11.
    Xcb(u32),
}

impl ParentWindow {
    /// The raw handle value this parent wraps.
    pub fn handle_value(&self) -> (h: usize)
        ensures
            (match *self {
                ParentWindow::MacOs(p) => h == p,
                ParentWindow::Windows(p) => h == p,
                ParentWindow::Xcb(w) => h == w as usize,
            }),
    {
        match *self {
            ParentWindow::MacOs(p) => p,
            ParentWindow::Windows(p) => p,
            ParentWindow::Xcb(w) => w as usize,
        }
    }
}

} // verus!

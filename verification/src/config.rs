//! The window configuration: one fixed set of values, decided at build time.

use vstd::prelude::*;
use vstd::string::StringExecFns;

verus! {

/// The configuration of the application's only window, as plain values. The
/// windowing framework takes the pixel sizes as floating-point numbers; they
/// are whole numbers here and are widened at the framework boundary.
pub struct WindowConfig {
    /// The label under which the window is registered.
    pub label: String,
    /// The page the embedded webview opens.
    pub url: String,
    /// The window title.
    pub title: String,
    /// Initial inner width, in pixels.
    pub width: u64,
    /// Initial inner height, in pixels.
    pub height: u64,
    /// Whether the window is shown on creation.
    pub visible: bool,
    /// Whether the framework's drag-and-drop handler is switched off.
    pub drag_drop_disabled: bool,
    /// Whether the window is centered on the screen.
    pub centered: bool,
    /// Whether the window can be closed.
    pub closable: bool,
    /// Whether the window can be resized.
    pub resizable: bool,
    /// Whether the window has its native decorations.
    pub decorations: bool,
    /// Whether the window takes focus on creation.
    pub focused: bool,
}

/// The one configuration this application ever opens a window with.
pub open spec fn is_fixed_config(c: WindowConfig) -> bool {
    &&& c.label@ == "main"@
    &&& c.url@ == "index.html"@
    &&& c.title@ == "Tools"@
    &&& c.width == 850u64
    &&& c.height == 525u64
    &&& c.visible == true
    &&& c.drag_drop_disabled == true
    &&& c.centered == true
    &&& c.closable == true
    &&& c.resizable == true
    &&& c.decorations == true
    &&& c.focused == true
}

impl WindowConfig {
    /// Builds the fixed configuration, every field the literal it is
    /// specified to be.
    pub fn fixed() -> (c: WindowConfig)
        ensures
            is_fixed_config(c),
    {
        WindowConfig {
            label: String::from_str("main"),
            url: String::from_str("index.html"),
            title: String::from_str("Tools"),
            width: 850,
            height: 525,
            visible: true,
            drag_drop_disabled: true,
            centered: true,
            closable: true,
            resizable: true,
            decorations: true,
            focused: true,
        }
    }
}

} // verus!

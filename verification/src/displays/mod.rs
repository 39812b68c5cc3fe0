//! What a display server tells the window manager.

use std::hash::Hash;
use vstd::prelude::*;
use crate::config::Config;
use crate::keys::KeyCombo;
use crate::window::{Geometry, Window, WindowType};

pub mod xcb_server;

verus! {

/// Something that happened on the display. `W` names windows and `K` key
/// combinations, both in the display server's own terms.
#[derive(Debug, PartialEq, Eq)]
pub enum Event<W, K> {
    DisplayInited,
    /// A screen with this root window offers this rectangle.
    ScreenAdded(W, Geometry),
    KeyPressed(K),
    WindowAdded(W, WindowType),
    WindowRemoved(W),
    WindowFocused(W),
    DisplayEnded,
    Ignored,
}

/// What the window manager asks of a display server. A display server
/// names windows and key combinations in its own terms.
pub trait DisplayServer: Sized {
    type Window: PartialEq;

    type KeyCombo: From<KeyCombo> + Hash + Eq;

    /// Connects to the display.
    fn new(config: &Config) -> Self;

    /// Puts the window at its place on the display.
    fn configure_window(&self, window: &Window<Self::Window>)
        requires
            window.view.is_some(),
    ;

    /// Shows or hides the window.
    fn set_visibility(&self, window: &Self::Window, show: bool);

    /// Ends the stream of events.
    fn quit(&self);
}

} // verus!

//! What an X server reports, read as events of the window manager.

use vstd::prelude::*;
use crate::displays::Event;
use crate::keys::xcb_keys::XcbKeyCombo;
use crate::window::{Geometry, WindowType};

verus! {

/// A report of the X server, as far as the window manager reads it.
#[derive(Debug, Clone, Copy, PartialEq, Eq)]
pub enum XcbEvent {
    /// A window asks for another place or size.
    ConfigureRequest,
    /// A key with this symbol went down while the modifiers of this mask were held.
    KeyPress { state: u16, keysym: u32 },
    /// This window asks to be shown.
    MapRequest { window: u32 },
    /// The window that this report is about is no longer shown.
    UnmapNotify { event: u32 },
    /// This window is gone.
    DestroyNotify { window: u32 },
    /// The pointer went into the window that this report is about.
    EnterNotify { event: u32 },
    /// Anything else.
    Other,
}

/// The event that a report of the X server stands for.
pub open spec fn event_of(report: XcbEvent) -> Event<u32, XcbKeyCombo> {
    match report {
        XcbEvent::ConfigureRequest => Event::Ignored,
        XcbEvent::KeyPress { state, keysym } => Event::KeyPressed(
            XcbKeyCombo { mod_mask: state as u32, key: keysym },
        ),
        XcbEvent::MapRequest { window } => Event::WindowAdded(window, WindowType::Normal),
        XcbEvent::UnmapNotify { event } => Event::WindowRemoved(event),
        XcbEvent::DestroyNotify { window } => Event::WindowRemoved(window),
        XcbEvent::EnterNotify { event } => Event::WindowFocused(event),
        XcbEvent::Other => Event::Ignored,
    }
}

/// Reads a report of the X server as an event: a pressed key, a window that
/// comes (an ordinary one, as far as is known), goes or gets the pointer.
/// Everything else asks for nothing.
pub fn match_event(report: XcbEvent) -> (event: Event<u32, XcbKeyCombo>)
    ensures
        event == event_of(report),
{
    match report {
        XcbEvent::ConfigureRequest => Event::Ignored,
        XcbEvent::KeyPress { state, keysym } => Event::KeyPressed(
            XcbKeyCombo { mod_mask: state as u32, key: keysym },
        ),
        XcbEvent::MapRequest { window } => Event::WindowAdded(window, WindowType::Normal),
        XcbEvent::UnmapNotify { event } => Event::WindowRemoved(event),
        XcbEvent::DestroyNotify { window } => Event::WindowRemoved(window),
        XcbEvent::EnterNotify { event } => Event::WindowFocused(event),
        XcbEvent::Other => Event::Ignored,
    }
}

/// The rectangle of a screen of this width and height, which starts at the
/// origin. It fits, whatever the X server reports.
pub fn get_screen_view(width: u16, height: u16) -> (view: Geometry)
    ensures
        view == Geometry::spec_new(0, 0, width as u32, height as u32),
        view.fits(),
{
    Geometry::new(0, 0, width as u32, height as u32)
}

} // verus!

//! A display and the part of it that workspaces may use.

use vstd::prelude::*;
use crate::window::Geometry;

verus! {

/// What a [`Screen`] holds.
pub struct ScreenView<W> {
    /// The root window of the display.
    pub window: W,
    /// The position of the workspace that the screen shows.
    pub workspace: nat,
    pub viewport: Geometry,
}

/// A display, known by its root window, with the rectangle it offers.
#[derive(Debug)]
pub struct Screen<W> {
    window: W,
    workspace: usize,
    view: Geometry,
}

impl<W> View for Screen<W> {
    type V = ScreenView<W>;

    closed spec fn view(&self) -> ScreenView<W> {
        ScreenView { window: self.window, workspace: self.workspace as nat, viewport: self.view }
    }
}

impl<W> Screen<W> {
    /// What holds of every screen: its rectangle fits.
    #[verifier::type_invariant]
    pub open spec fn wf(self) -> bool {
        self@.viewport.fits()
    }

    /// The screen of root window `window` that offers `view` and shows the
    /// first workspace.
    pub fn new(window: W, view: Geometry) -> (screen: Self)
        requires
            view.fits(),
        ensures
            screen@ == (ScreenView { window, workspace: 0, viewport: view }),
    {
        Screen { window, workspace: 0, view }
    }

    /// The rectangle that the screen offers.
    pub fn get_view(&self) -> (view: &Geometry)
        ensures
            *view == self@.viewport,
            view.fits(),
    {
        proof {
            use_type_invariant(self);
        }
        &self.view
    }

    /// The root window of the display.
    pub fn window(&self) -> (window: &W)
        ensures
            *window == self@.window,
    {
        &self.window
    }
}

} // verus!

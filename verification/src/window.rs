//! Windows and the rectangles they occupy.

use vstd::prelude::*;
use vstd::std_specs::cmp::{PartialEqSpec, PartialEqSpecImpl};

verus! {

/// What a window is for, as its owner declares it.
#[derive(Debug, Clone, Copy, PartialEq, Eq, Structural)]
pub enum WindowType {
    Desktop,
    Dock,
    Toolbar,
    Menu,
    Utility,
    Splash,
    Dialog,
    DropdownMenu,
    PopupMenu,
    Tooltip,
    Notification,
    Combo,
    Dnd,
    Normal,
}

/// Width and height of a rectangle, in pixels.
#[derive(Debug, Clone, Copy, PartialEq, Eq, Structural)]
pub struct Size {
    pub width: u32,
    pub height: u32,
}

/// Top-left corner of a rectangle.
#[derive(Debug, Clone, Copy, PartialEq, Eq, Structural)]
pub struct Position {
    pub x: i32,
    pub y: i32,
}

/// A rectangle on a display.
#[derive(Debug, Clone, Copy, PartialEq, Eq, Structural)]
pub struct Geometry {
    pub size: Size,
    pub position: Position,
}

impl Default for Size {
    fn default() -> (size: Self)
        ensures
            size == (Size { width: 0, height: 0 }),
    {
        Size { width: 0, height: 0 }
    }
}

impl Default for Position {
    fn default() -> (position: Self)
        ensures
            position == (Position { x: 0, y: 0 }),
    {
        Position { x: 0, y: 0 }
    }
}

impl Default for Geometry {
    /// The empty rectangle at the origin.
    fn default() -> (geometry: Self)
        ensures
            geometry == Geometry::spec_new(0, 0, 0, 0),
    {
        Geometry::new(0, 0, 0, 0)
    }
}

impl Geometry {
    pub open spec fn spec_new(x: i32, y: i32, width: u32, height: u32) -> Self {
        Geometry { size: Size { width, height }, position: Position { x, y } }
    }

    /// A rectangle fits when its far corner is still a position, so that
    /// every point of it has `i32` coordinates.
    pub open spec fn spec_fits(&self) -> bool {
        &&& self.position.x + self.size.width <= i32::MAX
        &&& self.position.y + self.size.height <= i32::MAX
    }

    #[verifier::when_used_as_spec(spec_new)]
    pub fn new(x: i32, y: i32, width: u32, height: u32) -> (geometry: Self)
        ensures
            geometry == Geometry::spec_new(x, y, width, height),
    {
        Self { size: Size { width, height }, position: Position { x, y } }
    }

    /// Whether the rectangle fits: whether its far corner is still a position.
    #[verifier::when_used_as_spec(spec_fits)]
    pub fn fits(&self) -> (fits: bool)
        ensures
            fits == self.spec_fits(),
    {
        let far_x: i64 = self.position.x as i64 + self.size.width as i64;
        let far_y: i64 = self.position.y as i64 + self.size.height as i64;
        far_x <= i32::MAX as i64 && far_y <= i32::MAX as i64
    }
}

/// A window of the display: who it is, and where and whether it shows.
#[derive(Debug)]
pub struct Window<W> {
    pub id: W,
    pub window_type: WindowType,
    pub view: Option<Geometry>,
    pub visible: bool,
}

impl<W: Clone> Clone for Window<W> {
    /// The window with a clone of its id.
    fn clone(&self) -> (window: Self)
        ensures
            cloned(self.id, window.id),
            window.window_type == self.window_type,
            window.view == self.view,
            window.visible == self.visible,
    {
        Window {
            id: self.id.clone(),
            window_type: self.window_type,
            view: self.view,
            visible: self.visible,
        }
    }
}

impl<W> std::ops::Deref for Window<W> {
    type Target = W;

    /// The window's id.
    fn deref(&self) -> (id: &W)
        ensures
            *id == self.id,
    {
        &self.id
    }
}

impl<W: PartialEq> PartialEq for Window<W> {
    /// Two windows are the same window when their ids are equal.
    fn eq(&self, other: &Self) -> (same: bool) {
        self.id == other.id
    }
}

impl<W: PartialEq> PartialEqSpecImpl for Window<W> {
    open spec fn obeys_eq_spec() -> bool {
        W::obeys_eq_spec()
    }

    open spec fn eq_spec(&self, other: &Self) -> bool {
        self.id.eq_spec(&other.id)
    }
}

impl<W> Window<W> {
    /// A window that has no place yet and does not show.
    pub fn new(id: W, window_type: WindowType) -> (window: Self)
        ensures
            window == (Window { id, window_type, view: None, visible: false }),
    {
        Window { id, window_type, view: None, visible: false }
    }

    /// The window's id.
    pub fn id(&self) -> (id: &W)
        ensures
            *id == self.id,
    {
        &self.id
    }

    pub fn is_visible(&self) -> (visible: bool)
        ensures
            visible == self.visible,
    {
        self.visible
    }

    /// The same window, showing or hidden as `visible` says.
    pub fn visible(self, visible: bool) -> (window: Self)
        ensures
            window == (Window { visible, ..self }),
    {
        let mut window = self;
        window.visible = visible;
        window
    }

    /// The same window, placed at `view`.
    pub fn set_view(self, view: Geometry) -> (window: Self)
        ensures
            window == (Window { view: Some(view), ..self }),
    {
        let mut window = self;
        window.view = Some(view);
        window
    }

    /// Whether the window has been given a place.
    pub fn has_view(&self) -> (placed: bool)
        ensures
            placed == self.view.is_some(),
    {
        self.view.is_some()
    }

    /// The place that the window was given.
    pub fn get_view(&self) -> (view: &Geometry)
        requires
            self.view.is_some(),
        ensures
            Some(*view) == self.view,
    {
        self.view.as_ref().unwrap()
    }
}

} // verus!

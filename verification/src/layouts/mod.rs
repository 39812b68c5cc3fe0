//! The ways in which a workspace places its windows on its part of the display.

use vstd::prelude::*;
use crate::stack::{Stack, StackView};
use crate::window::{Geometry, Window};

pub mod fullscreen;
pub mod tall;

verus! {

/// A way of placing the windows of a workspace.
#[derive(Clone, Copy, PartialEq, Eq, Debug, Structural)]
pub enum Layout {
    /// The first window on the left half, the others one below the other on
    /// the right half.
    Tall,
    /// The focused window alone, over the whole of the viewport.
    FullScreen,
}

impl Layout {
    /// The place of window `k` among `n` windows on `view`.
    pub open spec fn place(self, view: Geometry, n: int, k: int) -> Geometry {
        match self {
            Layout::Tall => tall::place(view, n, k),
            Layout::FullScreen => fullscreen::place(view),
        }
    }

    /// Whether a window shows, given whether it is the focused one.
    pub open spec fn shows(self, focused: bool) -> bool {
        match self {
            Layout::Tall => true,
            Layout::FullScreen => focused,
        }
    }

    /// The windows in the same order and with the same focus, each at its
    /// place on `view` and showing as the layout says.
    pub open spec fn arrange<W>(self, view: Geometry, windows: StackView<Window<W>>) -> StackView<
        Window<W>,
    > {
        StackView {
            items: Seq::new(
                windows.items.len(),
                |k: int|
                    Window {
                        view: Some(self.place(view, windows.items.len() as int, k)),
                        visible: self.shows(windows.current == Some(k)),
                        ..windows.items[k]
                    },
            ),
            current: windows.current,
        }
    }

    /// The layout of that name.
    pub open spec fn named(name: Seq<char>) -> Option<Layout> {
        if name == "tall"@ {
            Some(Layout::Tall)
        } else if name == "fullscreen"@ {
            Some(Layout::FullScreen)
        } else {
            None
        }
    }

    /// The layout that a configuration names `name`, if it names one.
    pub fn from_name(name: &str) -> (layout: Option<Layout>)
        ensures
            layout == Layout::named(name@),
    {
        let name = name.to_owned();
        if name == "tall".to_owned() {
            Some(Layout::Tall)
        } else if name == "fullscreen".to_owned() {
            Some(Layout::FullScreen)
        } else {
            None
        }
    }

    /// Places `windows` on `view`.
    pub fn handle_layout<W>(&self, view: &Geometry, windows: Stack<Window<W>>) -> (arranged: Stack<
        Window<W>,
    >)
        requires
            *self == Layout::Tall ==> view.fits(),
        ensures
            arranged@ == self.arrange(*view, windows@),
    {
        match self {
            Layout::Tall => tall::handle_layout(view, windows),
            Layout::FullScreen => fullscreen::handle_layout(view, windows),
        }
    }
}

/// Whatever the layout, a window keeps its id and its kind, the order and
/// the focus stay, and every window has a place afterwards.
pub proof fn lemma_arrange_keeps_windows<W>(
    layout: Layout,
    view: Geometry,
    windows: StackView<Window<W>>,
)
    ensures
        layout.arrange(view, windows).current == windows.current,
        layout.arrange(view, windows).items.len() == windows.items.len(),
        forall|k: int|
            0 <= k < windows.items.len() ==> {
                let placed = #[trigger] layout.arrange(view, windows).items[k];
                &&& placed.id == windows.items[k].id
                &&& placed.window_type == windows.items[k].window_type
                &&& placed.view.is_some()
            },
{
}

} // verus!

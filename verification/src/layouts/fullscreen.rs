//! The focused window alone, over the whole of the viewport.

use vstd::prelude::*;
use crate::layouts::Layout;
use crate::stack::{lemma_from_traversal_keeps_focus, Stack, StackView};
use crate::window::{Geometry, Window};

verus! {

/// Every window has the whole of `view`.
pub open spec fn place(view: Geometry) -> Geometry {
    view
}

/// Gives every window the whole of `view`; the focused window shows and the
/// others are hidden.
pub fn handle_layout<W>(view: &Geometry, windows: Stack<Window<W>>) -> (arranged: Stack<Window<W>>)
    ensures
        arranged@ == Layout::FullScreen.arrange(*view, windows@),
{
    let ghost before = windows@;
    let n = windows.len();
    let mut cursor = windows.into_iter();
    let mut pairs: Vec<(bool, Window<W>)> = Vec::new();
    while cursor.len() > 0
        invariant
            before.wf(),
            pairs@.len() + cursor@.len() == before.items.len(),
            cursor@ == before.traversal().skip(pairs@.len() as int),
            forall|i: int|
                0 <= i < pairs@.len() ==> #[trigger] pairs@[i] == (
                    before.current == Some(i),
                    Layout::FullScreen.arrange(*view, before).items[i],
                ),
        decreases cursor@.len(),
    {
        let ghost k = pairs@.len() as int;
        let (focused, window) = cursor.next().unwrap();
        pairs.push((focused, window.set_view(*view).visible(focused)));
        assert(cursor@ =~= before.traversal().skip(k + 1));
    }
    let arranged = Stack::from_traversal(pairs);
    proof {
        lemma_from_traversal_keeps_focus(before, pairs@);
        assert(arranged@.items =~= Layout::FullScreen.arrange(*view, before).items);
    }
    arranged
}

/// With this layout the focused window, and no other, shows, and every
/// window has the whole viewport.
pub proof fn lemma_fullscreen_shows_focused<W>(view: Geometry, windows: StackView<Window<W>>)
    requires
        windows.wf(),
    ensures
        forall|k: int|
            0 <= k < windows.items.len() ==> {
                let placed = #[trigger] Layout::FullScreen.arrange(view, windows).items[k];
                &&& placed.visible == (windows.current == Some(k))
                &&& placed.view == Some(view)
            },
        windows.items.len() > 0 ==> {
            let c = windows.current.unwrap();
            &&& 0 <= c < windows.items.len()
            &&& Layout::FullScreen.arrange(view, windows).items[c].visible
        },
{
}

} // verus!

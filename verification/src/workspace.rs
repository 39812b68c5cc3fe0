//! A named group of windows, placed on its viewport by the layout in use.

use vstd::prelude::*;
use vstd::std_specs::cmp::{PartialEqSpec, PartialEqSpecImpl};
use crate::layouts::Layout;
use crate::stack::{
    accepted_first_at, lemma_from_traversal_keeps_focus, rejected_below, Stack, StackView,
};
use crate::window::{Geometry, Window};

verus! {

/// What a [`Workspace`] holds.
pub struct WorkspaceView<W> {
    pub name: Seq<char>,
    /// Whether the windows have been touched since the last reset.
    pub changed: bool,
    /// The part of the display that the workspace has.
    pub viewport: Geometry,
    pub windows: StackView<Window<W>>,
    pub layouts: StackView<Layout>,
}

impl<W> WorkspaceView<W> {
    /// A workspace without windows and without a place on the display, which
    /// uses the first of `layouts`.
    pub open spec fn initial(name: Seq<char>, layouts: Seq<Layout>) -> Self {
        WorkspaceView {
            name,
            changed: false,
            viewport: Geometry::spec_new(0, 0, 0, 0),
            windows: StackView::empty(),
            layouts: StackView::from_seq(layouts),
        }
    }

    /// The layout in use: the focused one.
    pub open spec fn layout(self) -> Layout {
        self.layouts.items[self.layouts.current.unwrap()]
    }

    /// Every window has the place that the layout in use gives it on the viewport.
    pub open spec fn placed(self) -> bool {
        forall|k: int|
            0 <= k < self.windows.items.len() ==> (#[trigger] self.windows.items[k]).view == Some(
                self.layout().place(self.viewport, self.windows.items.len() as int, k),
            )
    }

    /// What holds of every workspace: its stacks are in order, it has a
    /// layout, its viewport fits, and its windows are placed.
    pub open spec fn wf(self) -> bool {
        &&& self.windows.wf()
        &&& self.layouts.wf()
        &&& self.layouts.items.len() > 0
        &&& self.viewport.fits()
        &&& self.placed()
    }

    /// No window shows.
    pub open spec fn all_hidden(self) -> bool {
        forall|k: int| 0 <= k < self.windows.items.len() ==> !(#[trigger] self.windows.items[k]).visible
    }

    /// The windows show as the layout in use says: all of them, or the
    /// focused one alone.
    pub open spec fn shown(self) -> bool {
        forall|k: int|
            0 <= k < self.windows.items.len() ==> (#[trigger] self.windows.items[k]).visible
                == self.layout().shows(self.windows.current == Some(k))
    }

    /// The windows placed anew by the layout in use, which counts as a
    /// change. Without windows nothing happens.
    pub open spec fn perform_layout(self) -> Self {
        if self.windows.items.len() == 0 {
            self
        } else {
            WorkspaceView {
                windows: self.layout().arrange(self.viewport, self.windows),
                changed: true,
                ..self
            }
        }
    }

    pub open spec fn reset(self) -> Self {
        WorkspaceView { changed: false, ..self }
    }

    pub open spec fn need_update(self) -> Self {
        WorkspaceView { changed: true, ..self }
    }

    /// Every window hidden where it stands.
    pub open spec fn hidden(self) -> Self {
        WorkspaceView {
            windows: StackView {
                items: Seq::new(
                    self.windows.items.len(),
                    |k: int| Window { visible: false, ..self.windows.items[k] },
                ),
                current: self.windows.current,
            },
            changed: true,
            ..self
        }
    }

    /// Shown, the windows are placed anew; hidden, each is hidden where it stands.
    pub open spec fn visible(self, visible: bool) -> Self {
        if visible {
            self.perform_layout()
        } else {
            self.hidden()
        }
    }

    pub open spec fn next_window(self) -> Self {
        WorkspaceView { windows: self.windows.next(), ..self }.perform_layout()
    }

    pub open spec fn previous_window(self) -> Self {
        WorkspaceView { windows: self.windows.previous(), ..self }.perform_layout()
    }

    /// The same windows on another viewport.
    pub open spec fn set_view(self, viewport: Geometry) -> Self {
        WorkspaceView { viewport, ..self }.perform_layout()
    }
}

impl<W: PartialEq> WorkspaceView<W> {
    /// The window at `k` has the id `id`, and no window before it has.
    pub open spec fn first_at(self, id: W, k: int) -> bool {
        &&& 0 <= k < self.windows.items.len()
        &&& self.windows.items[k].id.eq_spec(&id)
        &&& forall|j: int| 0 <= j < k ==> !(#[trigger] self.windows.items[j]).id.eq_spec(&id)
    }

    /// Some window has the id `id`.
    pub open spec fn contains(self, id: W) -> bool {
        exists|k: int| 0 <= k < self.windows.items.len() && (#[trigger] self.windows.items[k]).id.eq_spec(&id)
    }

    /// `window` joins at the focused position and takes the focus, and the
    /// windows are placed anew. A window whose id is there already is turned away.
    pub open spec fn add_window(self, window: Window<W>) -> Self {
        if self.contains(window.id) {
            self
        } else {
            WorkspaceView { windows: self.windows.add(window), ..self }.perform_layout()
        }
    }

    /// The first window with the id `id` leaves, the others are placed anew,
    /// and that counts as a change. Without such a window nothing happens.
    pub open spec fn remove_window(self, id: W) -> Self {
        if self.contains(id) {
            let k = choose|k: int| self.first_at(id, k);
            WorkspaceView {
                windows: self.windows.remove_at(k),
                ..self
            }.perform_layout().need_update()
        } else {
            self
        }
    }
}

/// To take out a window that is not there changes nothing, however often it
/// is done.
pub proof fn lemma_remove_absent_window<W: PartialEq>(workspace: WorkspaceView<W>, id: W)
    requires
        !workspace.contains(id),
    ensures
        workspace.remove_window(id) == workspace,
        workspace.remove_window(id).remove_window(id) == workspace.remove_window(id),
{
}

/// A workspace that is in order stays so when its windows are placed anew,
/// and its windows then show as the layout in use says.
pub proof fn lemma_perform_layout<W>(workspace: WorkspaceView<W>)
    requires
        workspace.windows.wf(),
        workspace.layouts.wf(),
        workspace.layouts.items.len() > 0,
        workspace.viewport.fits(),
    ensures
        workspace.perform_layout().wf(),
        workspace.perform_layout().shown(),
{
}

/// Among windows of which one has the id, one is the first to have it.
pub proof fn lemma_first_exists<W: PartialEq>(workspace: WorkspaceView<W>, id: W)
    requires
        workspace.contains(id),
    ensures
        exists|k: int| workspace.first_at(id, k),
{
    let found = choose|k: int|
        0 <= k < workspace.windows.items.len() && (#[trigger] workspace.windows.items[k]).id.eq_spec(&id);
    lemma_first_below(workspace, id, found);
}

proof fn lemma_first_below<W: PartialEq>(workspace: WorkspaceView<W>, id: W, found: int)
    requires
        0 <= found < workspace.windows.items.len(),
        workspace.windows.items[found].id.eq_spec(&id),
    ensures
        exists|k: int| workspace.first_at(id, k),
    decreases found,
{
    if exists|j: int| 0 <= j < found && (#[trigger] workspace.windows.items[j]).id.eq_spec(&id) {
        let j = choose|j: int| 0 <= j < found && (#[trigger] workspace.windows.items[j]).id.eq_spec(&id);
        lemma_first_below(workspace, id, j);
    } else {
        assert(workspace.first_at(id, found));
    }
}

/// Only one position is the first at which a window has the id.
pub proof fn lemma_first_unique<W: PartialEq>(workspace: WorkspaceView<W>, id: W, k: int)
    requires
        workspace.first_at(id, k),
    ensures
        workspace.contains(id),
        (choose|k: int| workspace.first_at(id, k)) == k,
{
    let chosen = choose|k: int| workspace.first_at(id, k);
    assert(workspace.first_at(id, chosen));
    if chosen < k {
        assert(!workspace.windows.items[chosen].id.eq_spec(&id));
    }
    if k < chosen {
        assert(!workspace.windows.items[k].id.eq_spec(&id));
    }
}

/// A named group of windows with the layouts it can use, the part of the
/// display it has, and a mark that says whether its windows were touched.
#[derive(Debug)]
pub struct Workspace<W> {
    name: String,
    is_changed: bool,
    view: Geometry,
    windows: Stack<Window<W>>,
    layouts: Stack<Layout>,
}

impl<W> View for Workspace<W> {
    type V = WorkspaceView<W>;

    closed spec fn view(&self) -> WorkspaceView<W> {
        WorkspaceView {
            name: self.name@,
            changed: self.is_changed,
            viewport: self.view,
            windows: self.windows@,
            layouts: self.layouts@,
        }
    }
}

impl<W: Clone> Clone for Workspace<W> {
    /// The workspace with clones of its windows, each at the place and as
    /// visible as the window it is a clone of.
    fn clone(&self) -> (workspace: Self)
        ensures
            workspace@.name == self@.name,
            workspace@.changed == self@.changed,
            workspace@.viewport == self@.viewport,
            workspace@.layouts == self@.layouts,
            workspace@.windows.current == self@.windows.current,
            workspace@.windows.items.len() == self@.windows.items.len(),
            forall|k: int|
                0 <= k < self@.windows.items.len() ==> cloned(
                    #[trigger] self@.windows.items[k],
                    workspace@.windows.items[k],
                ),
    {
        proof {
            use_type_invariant(self);
        }
        let windows = self.windows.clone();
        let layouts = self.layouts.clone();
        proof {
            use_type_invariant(&windows);
            use_type_invariant(&layouts);
            assert(layouts@.items =~= self.layouts@.items);
            assert forall|k: int| 0 <= k < windows@.items.len() implies (#[trigger] windows@.items[k]).view
                == self.windows@.items[k].view by {
                assert(cloned(self.windows@.items[k], windows@.items[k]));
            }
        }
        Workspace { name: self.name.clone(), is_changed: self.is_changed, view: self.view, windows, layouts }
    }
}

impl<W> std::ops::Deref for Workspace<W> {
    type Target = Stack<Window<W>>;

    /// The windows, each at its place.
    fn deref(&self) -> (windows: &Stack<Window<W>>)
        ensures
            windows@ == self@.windows,
    {
        &self.windows
    }
}

impl<W> PartialEq for Workspace<W> {
    /// Two workspaces are the same workspace when they have the same name.
    fn eq(&self, other: &Self) -> (same: bool) {
        self.name == other.name
    }
}

impl<W> PartialEqSpecImpl for Workspace<W> {
    open spec fn obeys_eq_spec() -> bool {
        true
    }

    open spec fn eq_spec(&self, other: &Self) -> bool {
        self@.name == other@.name
    }
}

/// Places `windows` on `view` by the layout in use, if there are any.
fn place_windows<W>(layouts: &Stack<Layout>, view: &Geometry, windows: Stack<Window<W>>) -> (placed:
    Stack<Window<W>>)
    requires
        layouts@.items.len() > 0,
        view.fits(),
    ensures
        placed@ == if windows@.items.len() == 0 {
            windows@
        } else {
            layouts@.focused().unwrap().arrange(*view, windows@)
        },
{
    if windows.is_empty() {
        windows
    } else {
        match layouts.get_current() {
            Some(layout) => layout.handle_layout(view, windows),
            None => windows,
        }
    }
}

impl<W> Workspace<W> {
    /// What holds of every workspace (see [`WorkspaceView::wf`]).
    #[verifier::type_invariant]
    pub open spec fn wf(self) -> bool {
        self@.wf()
    }

    /// The workspace of these parts, with its windows placed anew.
    fn arranged(
        name: String,
        changed: bool,
        view: Geometry,
        windows: Stack<Window<W>>,
        layouts: Stack<Layout>,
    ) -> (workspace: Self)
        requires
            layouts@.items.len() > 0,
            view.fits(),
        ensures
            workspace@ == (WorkspaceView {
                name: name@,
                changed,
                viewport: view,
                windows: windows@,
                layouts: layouts@,
            }).perform_layout(),
            workspace@.wf(),
    {
        proof {
            use_type_invariant(&windows);
            use_type_invariant(&layouts);
        }
        let occupied = !windows.is_empty();
        let windows = place_windows(&layouts, &view, windows);
        proof {
            use_type_invariant(&windows);
        }
        Workspace { name, is_changed: changed || occupied, view, windows, layouts }
    }

    /// A workspace of the given windows, placed on `view` by the focused one
    /// of `layouts`.
    pub fn new(name: String, windows: Stack<Window<W>>, layouts: Stack<Layout>, view: Geometry) -> (workspace:
        Self)
        requires
            layouts@.items.len() > 0,
            view.fits(),
        ensures
            workspace@ == (WorkspaceView {
                name: name@,
                changed: false,
                viewport: view,
                windows: windows@,
                layouts: layouts@,
            }).perform_layout(),
            workspace@.wf(),
    {
        Self::arranged(name, false, view, windows, layouts)
    }

    pub fn get_name(&self) -> (name: &str)
        ensures
            name@ == self@.name,
    {
        self.name.as_str()
    }

    /// Whether the windows were touched since the last reset.
    pub fn is_changed(&self) -> (changed: bool)
        ensures
            changed == self@.changed,
    {
        self.is_changed
    }

    /// The part of the display that the workspace has.
    pub fn viewport(&self) -> (viewport: &Geometry)
        ensures
            *viewport == self@.viewport,
            self@.wf(),
    {
        proof {
            use_type_invariant(self);
        }
        &self.view
    }

    /// The windows, each at its place.
    pub fn windows(&self) -> (windows: &Stack<Window<W>>)
        ensures
            windows@ == self@.windows,
            self@.wf(),
    {
        proof {
            use_type_invariant(self);
        }
        &self.windows
    }

    /// The layouts that the workspace can use; the focused one is in use.
    pub fn layouts(&self) -> (layouts: &Stack<Layout>)
        ensures
            layouts@ == self@.layouts,
            self@.wf(),
    {
        proof {
            use_type_invariant(self);
        }
        &self.layouts
    }

    /// Clears the mark that says that the windows were touched.
    pub fn reset(self) -> (workspace: Self)
        ensures
            workspace@ == self@.reset(),
    {
        proof {
            use_type_invariant(&self);
        }
        let Workspace { name, is_changed: _, view, windows, layouts } = self;
        Workspace { name, is_changed: false, view, windows, layouts }
    }

    /// Sets the mark that says that the windows were touched.
    pub fn need_update(self) -> (workspace: Self)
        ensures
            workspace@ == self@.need_update(),
    {
        proof {
            use_type_invariant(&self);
        }
        let Workspace { name, is_changed: _, view, windows, layouts } = self;
        Workspace { name, is_changed: true, view, windows, layouts }
    }

    /// Places the windows anew by the layout in use.
    fn perform_layout(self) -> (workspace: Self)
        ensures
            workspace@ == self@.perform_layout(),
    {
        proof {
            use_type_invariant(&self);
        }
        let Workspace { name, is_changed, view, windows, layouts } = self;
        Self::arranged(name, is_changed, view, windows, layouts)
    }

    /// Shows the workspace, which places its windows anew, or hides it,
    /// which hides each window where it stands.
    pub fn visible(self, visible: bool) -> (workspace: Self)
        ensures
            workspace@ == self@.visible(visible),
    {
        if visible {
            self.perform_layout()
        } else {
            proof {
                use_type_invariant(&self);
            }
            let Workspace { name, is_changed: _, view, windows, layouts } = self;
            let ghost before = windows@;
            let mut cursor = windows.into_iter();
            let mut pairs: Vec<(bool, Window<W>)> = Vec::new();
            while cursor.len() > 0
                invariant
                    before.wf(),
                    pairs@.len() + cursor@.len() == before.items.len(),
                    cursor@ == before.traversal().skip(pairs@.len() as int),
                    forall|i: int|
                        0 <= i < pairs@.len() ==> #[trigger] pairs@[i] == (
                            before.current == Some(i),
                            Window { visible: false, ..before.items[i] },
                        ),
                decreases cursor@.len(),
            {
                let ghost k = pairs@.len() as int;
                let (focused, window) = cursor.next().unwrap();
                pairs.push((focused, window.visible(false)));
                assert(cursor@ =~= before.traversal().skip(k + 1));
            }
            let windows = Stack::from_traversal(pairs);
            proof {
                lemma_from_traversal_keeps_focus(before, pairs@);
            }
            let hidden = Workspace { name, is_changed: true, view, windows, layouts };
            assert(hidden@.windows.items =~= self@.hidden().windows.items);
            hidden
        }
    }

    /// Focuses the following window and places the windows anew.
    pub fn next_window(self) -> (workspace: Self)
        ensures
            workspace@ == self@.next_window(),
    {
        proof {
            use_type_invariant(&self);
        }
        let Workspace { name, is_changed, view, windows, layouts } = self;
        Self::arranged(name, is_changed, view, windows.next(), layouts)
    }

    /// Focuses the preceding window and places the windows anew.
    pub fn previous_window(self) -> (workspace: Self)
        ensures
            workspace@ == self@.previous_window(),
    {
        proof {
            use_type_invariant(&self);
        }
        let Workspace { name, is_changed, view, windows, layouts } = self;
        Self::arranged(name, is_changed, view, windows.previous(), layouts)
    }

    /// Gives the workspace another part of the display and places its
    /// windows on it.
    pub fn set_view(self, view: Geometry) -> (workspace: Self)
        requires
            view.fits(),
        ensures
            workspace@ == self@.set_view(view),
    {
        proof {
            use_type_invariant(&self);
        }
        let Workspace { name, is_changed, view: _, windows, layouts } = self;
        Self::arranged(name, is_changed, view, windows, layouts)
    }
}

impl<W: PartialEq> Workspace<W> {
    /// Whether a window with the id `id` is among the windows.
    pub fn contains(&self, id: &W) -> (found: bool)
        ensures
            W::obeys_eq_spec() ==> found == self@.contains(*id),
    {
        let n = self.windows.len();
        let mut k: usize = 0;
        while k < n
            invariant
                k <= n,
                n == self@.windows.items.len(),
                W::obeys_eq_spec() ==> forall|j: int|
                    0 <= j < k ==> !(#[trigger] self@.windows.items[j]).id.eq_spec(id),
            decreases n - k,
        {
            match self.windows.get(k) {
                Some(window) => {
                    if window.id == *id {
                        return true;
                    }
                },
                None => {},
            }
            k = k + 1;
        }
        false
    }

    /// Adds `window` at the focused position, focuses it and places the
    /// windows anew. A window whose id is there already is turned away.
    pub fn add_window(self, window: Window<W>) -> (workspace: Self)
        ensures
            W::obeys_eq_spec() ==> workspace@ == self@.add_window(window),
    {
        proof {
            use_type_invariant(&self);
        }
        if self.contains(&window.id) {
            self
        } else {
            let Workspace { name, is_changed, view, windows, layouts } = self;
            Self::arranged(name, is_changed, view, windows.add(window), layouts)
        }
    }

    /// Takes out the first window with the id `window` and places the others
    /// anew. Without such a window the workspace stays as it is.
    pub fn remove_window(self, window: W) -> (workspace: Self)
        ensures
            W::obeys_eq_spec() ==> workspace@ == self@.remove_window(window),
    {
        self.remove_window_by_id(&window)
    }

    /// Takes out the first window with the id `id` and places the others
    /// anew. Without such a window the workspace stays as it is.
    pub fn remove_window_by_id(self, id: &W) -> (workspace: Self)
        ensures
            W::obeys_eq_spec() ==> workspace@ == self@.remove_window(*id),
    {
        proof {
            use_type_invariant(&self);
        }
        let ghost before = self@;
        let Workspace { name, is_changed, view, windows, layouts } = self;
        let old_len = windows.len();
        let has_id = |w: &Window<W>| -> (same: bool)
            ensures
                W::obeys_eq_spec() ==> same == w.id.eq_spec(id),
            { w.id == *id };
        let windows = windows.remove_by(has_id);
        if old_len != windows.len() {
            proof {
                if W::obeys_eq_spec() {
                    let k = choose|k: int| #[trigger]
                        accepted_first_at(has_id, before.windows.items, k) && windows@
                            == before.windows.remove_at(k);
                    assert(before.first_at(*id, k));
                    lemma_first_unique(before, *id, k);
                }
            }
            Self::arranged(name, is_changed, view, windows, layouts).need_update()
        } else {
            proof {
                if W::obeys_eq_spec() {
                    assert(rejected_below(has_id, before.windows.items, old_len as int));
                    assert(!before.contains(*id));
                }
            }
            Workspace { name, is_changed, view, windows, layouts }
        }
    }
}

} // verus!

//! The state of the window manager and the steps that events make it take.

use std::collections::HashMap;
use std::hash::Hash;
use vstd::prelude::*;
use vstd::std_specs::cmp::PartialEqSpec;
use vstd::std_specs::hash::obeys_key_model;
use crate::command::Command;
use crate::config::{Config, ConfigView};
use crate::displays::Event;
use crate::layouts::Layout;
use crate::screen::{Screen, ScreenView};
use crate::stack::{lemma_from_traversal_keeps_focus, Stack, StackView};
use crate::window::{Geometry, Window, WindowType};
use crate::workspace::{Workspace, WorkspaceView};

verus! {

/// What a [`State`] holds.
pub struct StateView<W> {
    /// Whether the window manager has been told to end.
    pub quit: bool,
    pub workspaces: StackView<WorkspaceView<W>>,
    pub screens: StackView<ScreenView<W>>,
}

impl<W> StateView<W> {
    /// The state at the start: one empty workspace for each name, the first
    /// one current, no screen yet.
    pub open spec fn initial(config: ConfigView) -> Self {
        StateView {
            quit: false,
            workspaces: StackView::from_seq(
                Seq::new(
                    config.workspaces.len(),
                    |i: int| WorkspaceView::<W>::initial(config.workspaces[i], config.layouts),
                ),
            ),
            screens: StackView::empty(),
        }
    }

    /// What holds of every state: its stacks are in order, so that one
    /// workspace is the current one wherever there is a workspace; each of
    /// its workspaces is in order; and the rectangle of each screen fits.
    pub open spec fn wf(self) -> bool {
        &&& self.workspaces.wf()
        &&& self.screens.wf()
        &&& forall|i: int|
            0 <= i < self.workspaces.items.len() ==> (#[trigger] self.workspaces.items[i]).wf()
        &&& forall|i: int|
            0 <= i < self.screens.items.len() ==> (#[trigger] self.screens.items[i]).viewport.fits()
    }

    /// The names of the workspaces, in their order.
    pub open spec fn names(self) -> Seq<Seq<char>> {
        self.workspaces.items.map_values(|w: WorkspaceView<W>| w.name)
    }

    /// `workspace` in place of the current workspace.
    pub open spec fn with_current(self, workspace: WorkspaceView<W>) -> Self {
        StateView { workspaces: self.workspaces.replace_current(workspace), ..self }
    }

    /// The current workspace on the rectangle of the current screen.
    pub open spec fn update_workspace_view(self) -> Self {
        match (self.screens.focused(), self.workspaces.focused()) {
            (Some(screen), Some(workspace)) => self.with_current(
                workspace.set_view(screen.viewport),
            ),
            _ => self,
        }
    }

    /// A new screen takes the focus, and the current workspace its rectangle.
    pub open spec fn add_screen(self, window: W, viewport: Geometry) -> Self {
        StateView {
            screens: self.screens.add(ScreenView { window, workspace: 0, viewport }),
            ..self
        }.update_workspace_view()
    }

    /// The current workspace shown or hidden.
    pub open spec fn show_current(self, visible: bool) -> Self {
        match self.workspaces.focused() {
            Some(workspace) => self.with_current(workspace.visible(visible)),
            None => self,
        }
    }

    /// The current workspace is hidden, the workspace at `position` becomes
    /// the current one if there is such a workspace, and the workspace that
    /// is then current is shown on the rectangle of the current screen.
    pub open spec fn goto_workspace(self, position: int) -> Self {
        let hidden = self.show_current(false);
        let moved = StateView { workspaces: hidden.workspaces.set_current(position), ..hidden };
        moved.show_current(true).update_workspace_view()
    }

    pub open spec fn next_window(self) -> Self {
        match self.workspaces.focused() {
            Some(workspace) => self.with_current(workspace.next_window()),
            None => self,
        }
    }

    pub open spec fn previous_window(self) -> Self {
        match self.workspaces.focused() {
            Some(workspace) => self.with_current(workspace.previous_window()),
            None => self,
        }
    }

    pub open spec fn quit(self) -> Self {
        StateView { quit: true, ..self }
    }

    /// Every workspace with its mark cleared.
    pub open spec fn reset(self) -> Self {
        StateView {
            workspaces: self.workspaces.map_values(|w: WorkspaceView<W>| w.reset()),
            ..self
        }
    }
}

impl<W: PartialEq> StateView<W> {
    /// A new window, which shows, joins the current workspace.
    pub open spec fn add_window(self, window: W, window_type: WindowType) -> Self {
        match self.workspaces.focused() {
            Some(workspace) => self.with_current(
                workspace.add_window(Window { id: window, window_type, view: None, visible: true }),
            ),
            None => self,
        }
    }

    /// The window leaves every workspace that has it.
    pub open spec fn remove_window(self, window: W) -> Self {
        StateView {
            workspaces: self.workspaces.map_values(|w: WorkspaceView<W>| w.remove_window(window)),
            ..self
        }
    }

    /// The step that a pressed key leads to: that of the command bound to
    /// it, or none.
    pub open spec fn key_pressed<K>(self, key: K, handlers: Map<K, Command>) -> Self {
        if handlers.contains_key(key) {
            handlers[key]@.execute(self)
        } else {
            self
        }
    }

    /// The step that `event` leads to.
    pub open spec fn handle_event<K>(self, event: Event<W, K>, handlers: Map<K, Command>) -> Self {
        match event {
            Event::WindowAdded(window, window_type) => self.add_window(window, window_type),
            Event::WindowRemoved(window) => self.remove_window(window),
            Event::KeyPressed(key) => self.key_pressed(key, handlers),
            Event::ScreenAdded(window, viewport) => self.add_screen(window, viewport),
            _ => self,
        }
    }
}

/// Whether what `event` leads to can be told: events on windows rest on the
/// comparison of window ids, and a pressed key on the lookup of the key.
pub open spec fn decided<W: PartialEq, K>(event: Event<W, K>) -> bool {
    match event {
        Event::WindowAdded(_, _) => W::obeys_eq_spec(),
        Event::WindowRemoved(_) => W::obeys_eq_spec(),
        Event::KeyPressed(_) => obeys_key_model::<K>(),
        _ => true,
    }
}

/// To go to a workspace that is not there leaves the current workspace the
/// current one and the others untouched. To go to one that is there makes it
/// the current one and shows it; the workspace that was current before is
/// then hidden, and the others are untouched.
pub proof fn lemma_goto_workspace<W>(state: StateView<W>, position: int)
    requires
        state.workspaces.wf(),
        0 <= position,
    ensures
        ({
            let next = state.goto_workspace(position);
            let count = state.workspaces.items.len();
            &&& next.workspaces.items.len() == count
            &&& next.quit == state.quit
            &&& next.screens == state.screens
            &&& position >= count ==> {
                &&& next.workspaces.current == state.workspaces.current
                &&& forall|i: int|
                    0 <= i < count && state.workspaces.current != Some(i) ==> #[trigger] next.workspaces.items[i]
                        == state.workspaces.items[i]
            }
            &&& position < count ==> {
                &&& next.workspaces.current == Some(position)
                &&& next.workspaces.items[position].shown()
                &&& forall|i: int|
                    0 <= i < count && i != position ==> #[trigger] next.workspaces.items[i] == if state.workspaces.current
                        == Some(i) {
                        state.workspaces.items[i].hidden()
                    } else {
                        state.workspaces.items[i]
                    }
            }
        }),
        forall|workspace: WorkspaceView<W>| #[trigger] workspace.hidden().all_hidden(),
{
}

/// A window that no workspace has can be taken out without any trace:
/// every workspace keeps its windows, their places and its mark.
pub proof fn lemma_remove_unknown_window<W: PartialEq, K>(
    state: StateView<W>,
    window: W,
    handlers: Map<K, Command>,
)
    requires
        forall|i: int|
            0 <= i < state.workspaces.items.len() ==> !(#[trigger] state.workspaces.items[i]).contains(
                window,
            ),
    ensures
        state.remove_window(window) == state,
        state.handle_event(Event::WindowRemoved(window), handlers) == state,
{
    assert(state.remove_window(window).workspaces.items =~= state.workspaces.items);
}

/// Whatever the event, the state stays in order and the workspaces stay the
/// ones they were, under their names and in their order.
pub proof fn lemma_step_keeps_order<W: PartialEq, K>(
    state: StateView<W>,
    event: Event<W, K>,
    handlers: Map<K, Command>,
)
    requires
        state.wf(),
        event matches Event::ScreenAdded(_, viewport) ==> viewport.fits(),
    ensures
        state.handle_event(event, handlers).wf(),
        state.handle_event(event, handlers).names() == state.names(),
        state.reset().wf(),
        state.reset().names() == state.names(),
{
    let next = state.handle_event(event, handlers);
    assert(next.names() =~= state.names());
    assert(state.reset().names() =~= state.names());
}

/// Once the window manager has been told to end, no event and no reset
/// takes that back.
pub proof fn lemma_quit_is_final<W: PartialEq, K>(
    state: StateView<W>,
    event: Event<W, K>,
    handlers: Map<K, Command>,
)
    requires
        state.quit,
    ensures
        state.handle_event(event, handlers).quit,
        state.reset().quit,
{
}

/// The workspaces, the screens, and whether the window manager is to end.
pub struct State<W> {
    pub quit: bool,
    pub workspaces: Stack<Workspace<W>>,
    pub screens: Stack<Screen<W>>,
}

impl<W> View for State<W> {
    type V = StateView<W>;

    open spec fn view(&self) -> StateView<W> {
        StateView {
            quit: self.quit,
            workspaces: self.workspaces@.map_values(|w: Workspace<W>| w@),
            screens: self.screens@.map_values(|s: Screen<W>| s@),
        }
    }
}

impl<W> State<W> {
    /// The state at the start: one empty workspace for each name in
    /// `config`, the first one current, no screen yet.
    pub fn new(config: &Config) -> (state: Self)
        requires
            config@.layouts.len() > 0,
        ensures
            state@ == StateView::<W>::initial(config@),
    {
        let mut workspaces: Vec<Workspace<W>> = Vec::new();
        let mut i: usize = 0;
        while i < config.workspaces.len()
            invariant
                i <= config.workspaces@.len(),
                config@.layouts.len() > 0,
                workspaces@.len() == i,
                forall|j: int|
                    0 <= j < i ==> (#[trigger] workspaces@[j])@ == WorkspaceView::<W>::initial(
                        config@.workspaces[j],
                        config@.layouts,
                    ),
            decreases config.workspaces@.len() - i,
        {
            let layouts: Stack<Layout> = Stack::from(config.layouts.clone());
            let workspace = Workspace::new(
                config.workspaces[i].clone(),
                Stack::new(),
                layouts,
                Geometry::default(),
            );
            workspaces.push(workspace);
            i = i + 1;
        }
        let state = State { quit: false, workspaces: Stack::from(workspaces), screens: Stack::new() };
        assert(state@.workspaces.items =~= StateView::<W>::initial(config@).workspaces.items);
        assert(state@.screens.items =~= StateView::<W>::initial(config@).screens.items);
        state
    }

    /// Clears the mark of every workspace.
    pub fn reset(self) -> (state: Self)
        ensures
            state@ == self@.reset(),
    {
        let State { quit, workspaces, screens } = self;
        let ghost before = workspaces@;
        proof {
            use_type_invariant(&workspaces);
        }
        let mut cursor = workspaces.into_iter();
        let mut pairs: Vec<(bool, Workspace<W>)> = Vec::new();
        while cursor.len() > 0
            invariant
                before.wf(),
                pairs@.len() + cursor@.len() == before.items.len(),
                cursor@ == before.traversal().skip(pairs@.len() as int),
                forall|i: int|
                    0 <= i < pairs@.len() ==> {
                        &&& (#[trigger] pairs@[i]).0 == (before.current == Some(i))
                        &&& pairs@[i].1@ == before.items[i]@.reset()
                    },
            decreases cursor@.len(),
        {
            let ghost k = pairs@.len() as int;
            let (current, workspace) = cursor.next().unwrap();
            pairs.push((current, workspace.reset()));
            assert(cursor@ =~= before.traversal().skip(k + 1));
        }
        let workspaces = Stack::from_traversal(pairs);
        proof {
            lemma_from_traversal_keeps_focus(before, pairs@);
        }
        let state = State { quit, workspaces, screens };
        assert(state@.workspaces.items =~= self@.reset().workspaces.items);
        state
    }

    /// Gives the current workspace the rectangle of the current screen.
    fn update_workspace_view(self) -> (state: Self)
        ensures
            state@ == self@.update_workspace_view(),
    {
        let State { quit, workspaces, screens } = self;
        proof {
            use_type_invariant(&workspaces);
            use_type_invariant(&screens);
        }
        let workspaces = match screens.get_current() {
            Some(screen) => {
                let view = *screen.get_view();
                let on_view = |workspace: Workspace<W>| -> (placed: Workspace<W>)
                    ensures
                        placed@ == workspace@.set_view(view),
                    { workspace.set_view(view) };
                workspaces.update_current(on_view)
            },
            None => workspaces,
        };
        let state = State { quit, workspaces, screens };
        assert(state@.workspaces.items =~= self@.update_workspace_view().workspaces.items);
        state
    }

    /// Takes in a new screen, which becomes the current one, and gives the
    /// current workspace its rectangle.
    fn add_screen(self, window: W, view: Geometry) -> (state: Self)
        requires
            view.fits(),
        ensures
            state@ == self@.add_screen(window, view),
    {
        let State { quit, workspaces, screens } = self;
        proof {
            use_type_invariant(&screens);
        }
        let ghost before = screens@;
        let screen = Screen::new(window, view);
        let screens = screens.add(screen);
        let added = State { quit, workspaces, screens };
        proof {
            let at = match before.current {
                Some(c) => c,
                None => 0,
            };
            let inserted = self@.screens.add(screen@);
            assert(screens@.items == before.items.insert(at, screen));
            assert forall|i: int| 0 <= i < inserted.items.len() implies added@.screens.items[i]
                == inserted.items[i] by {
                if i < at {
                    assert(screens@.items[i] == before.items[i]);
                } else if i > at {
                    assert(screens@.items[i] == before.items[i - 1]);
                }
            }
            assert(added@.screens.items =~= inserted.items);
        }
        added.update_workspace_view()
    }

    /// Shows or hides the current workspace.
    fn show_current(self, visible: bool) -> (state: Self)
        ensures
            state@ == self@.show_current(visible),
    {
        let State { quit, workspaces, screens } = self;
        proof {
            use_type_invariant(&workspaces);
        }
        let show = |workspace: Workspace<W>| -> (shown: Workspace<W>)
            ensures
                shown@ == workspace@.visible(visible),
            { workspace.visible(visible) };
        let workspaces = workspaces.update_current(show);
        let state = State { quit, workspaces, screens };
        assert(state@.workspaces.items =~= self@.show_current(visible).workspaces.items);
        state
    }

    /// Hides the current workspace, makes the workspace at `position` the
    /// current one if there is such a workspace, and shows the workspace
    /// that is then current on the rectangle of the current screen.
    pub fn goto_workspace(self, position: usize) -> (state: Self)
        ensures
            state@ == self@.goto_workspace(position as int),
    {
        let State { quit, workspaces, screens } = self.show_current(false);
        let moved = State { quit, workspaces: workspaces.set_current(position), screens };
        moved.show_current(true).update_workspace_view()
    }

    /// Focuses the following window of the current workspace.
    pub fn next_window(self) -> (state: Self)
        ensures
            state@ == self@.next_window(),
    {
        let State { quit, workspaces, screens } = self;
        proof {
            use_type_invariant(&workspaces);
        }
        let turn = |workspace: Workspace<W>| -> (turned: Workspace<W>)
            ensures
                turned@ == workspace@.next_window(),
            { workspace.next_window() };
        let workspaces = workspaces.update_current(turn);
        let state = State { quit, workspaces, screens };
        assert(state@.workspaces.items =~= self@.next_window().workspaces.items);
        state
    }

    /// Focuses the preceding window of the current workspace.
    pub fn previous_window(self) -> (state: Self)
        ensures
            state@ == self@.previous_window(),
    {
        let State { quit, workspaces, screens } = self;
        proof {
            use_type_invariant(&workspaces);
        }
        let turn = |workspace: Workspace<W>| -> (turned: Workspace<W>)
            ensures
                turned@ == workspace@.previous_window(),
            { workspace.previous_window() };
        let workspaces = workspaces.update_current(turn);
        let state = State { quit, workspaces, screens };
        assert(state@.workspaces.items =~= self@.previous_window().workspaces.items);
        state
    }

    /// Tells the window manager to end.
    pub fn quit(self) -> (state: Self)
        ensures
            state@ == self@.quit(),
    {
        let mut state = self;
        state.quit = true;
        state
    }
}

impl<W: PartialEq> State<W> {
    /// Puts a new window, which shows, into the current workspace.
    pub fn add_window(self, window: W, window_type: WindowType) -> (state: Self)
        ensures
            W::obeys_eq_spec() ==> state@ == self@.add_window(window, window_type),
    {
        let State { quit, workspaces, screens } = self;
        proof {
            use_type_invariant(&workspaces);
        }
        let window = Window::new(window, window_type).visible(true);
        let join = |workspace: Workspace<W>| -> (joined: Workspace<W>)
            ensures
                W::obeys_eq_spec() ==> joined@ == workspace@.add_window(window),
            { workspace.add_window(window) };
        let workspaces = workspaces.update_current(join);
        let state = State { quit, workspaces, screens };
        assert(W::obeys_eq_spec() ==> state@.workspaces.items =~= self@.add_window(
            window.id,
            window_type,
        ).workspaces.items);
        state
    }

    /// Takes the window out of every workspace that has it.
    pub fn remove_window(self, window: W) -> (state: Self)
        ensures
            W::obeys_eq_spec() ==> state@ == self@.remove_window(window),
    {
        let State { quit, workspaces, screens } = self;
        let ghost before = workspaces@;
        proof {
            use_type_invariant(&workspaces);
        }
        let mut cursor = workspaces.into_iter();
        let mut pairs: Vec<(bool, Workspace<W>)> = Vec::new();
        while cursor.len() > 0
            invariant
                before.wf(),
                pairs@.len() + cursor@.len() == before.items.len(),
                cursor@ == before.traversal().skip(pairs@.len() as int),
                forall|i: int|
                    0 <= i < pairs@.len() ==> {
                        &&& (#[trigger] pairs@[i]).0 == (before.current == Some(i))
                        &&& W::obeys_eq_spec() ==> pairs@[i].1@ == before.items[i]@.remove_window(
                            window,
                        )
                    },
            decreases cursor@.len(),
        {
            let ghost k = pairs@.len() as int;
            let (current, workspace) = cursor.next().unwrap();
            pairs.push((current, workspace.remove_window_by_id(&window)));
            assert(cursor@ =~= before.traversal().skip(k + 1));
        }
        let workspaces = Stack::from_traversal(pairs);
        proof {
            lemma_from_traversal_keeps_focus(before, pairs@);
        }
        let state = State { quit, workspaces, screens };
        assert(W::obeys_eq_spec() ==> state@.workspaces.items =~= self@.remove_window(
            window,
        ).workspaces.items);
        state
    }

    /// Takes the step of the command that is bound to `key`, if one is.
    fn key_pressed<K: Hash + Eq>(self, key: K, handlers: &HashMap<K, Command>) -> (state: Self)
        ensures
            obeys_key_model::<K>() ==> state@ == self@.key_pressed(key, handlers@),
    {
        match handlers.get(&key) {
            Some(command) => command.execute(self),
            None => self,
        }
    }

    /// Takes the step that `event` leads to. An event that asks for nothing
    /// leaves the state as it is.
    pub fn handle_event<K: Hash + Eq>(self, event: Event<W, K>, handlers: &HashMap<K, Command>) -> (state:
        Self)
        requires
            event matches Event::ScreenAdded(_, viewport) ==> viewport.fits(),
        ensures
            decided(event) ==> state@ == self@.handle_event(event, handlers@),
    {
        match event {
            Event::WindowAdded(window, window_type) => self.add_window(window, window_type),
            Event::WindowRemoved(window) => self.remove_window(window),
            Event::KeyPressed(key) => self.key_pressed(key, handlers),
            Event::ScreenAdded(window, view) => self.add_screen(window, view),
            _ => self,
        }
    }
}

} // verus!

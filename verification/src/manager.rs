//! The loop that keeps the display in step with the state: what to ask of
//! the display server after each event.

use std::collections::HashMap;
use vstd::prelude::*;
use vstd::std_specs::convert::FromSpec;
use vstd::std_specs::hash::obeys_key_model;
use crate::command::{is_default_table, program_for, Command};
use crate::config::Config;
use crate::displays::{DisplayServer, Event};
use crate::state::{decided, State, StateView};
use crate::window::Window;
use crate::workspace::{Workspace, WorkspaceView};

verus! {

/// Something to ask of the display server.
#[derive(Debug)]
pub enum Operation<'a, W> {
    /// End the stream of events.
    Quit,
    /// Put the window at its place.
    Configure(&'a Window<W>),
    /// Show or hide the window of this id.
    SetVisibility(&'a W, bool),
}

/// What an [`Operation`] holds.
pub enum OperationView<W> {
    Quit,
    Configure(Window<W>),
    SetVisibility(W, bool),
}

impl<'a, W> View for Operation<'a, W> {
    type V = OperationView<W>;

    open spec fn view(&self) -> OperationView<W> {
        match self {
            Operation::Quit => OperationView::Quit,
            Operation::Configure(window) => OperationView::Configure(**window),
            Operation::SetVisibility(id, show) => OperationView::SetVisibility(**id, *show),
        }
    }
}

/// For each of `windows` in order: put it at its place, then show or hide it.
pub open spec fn window_operations<W>(windows: Seq<Window<W>>) -> Seq<OperationView<W>>
    decreases windows.len(),
{
    if windows.len() == 0 {
        Seq::empty()
    } else {
        window_operations(windows.drop_last()) + seq![
            OperationView::Configure(windows.last()),
            OperationView::SetVisibility(windows.last().id, windows.last().visible),
        ]
    }
}

/// The operations on the windows of those of `workspaces` that were touched,
/// workspace after workspace.
pub open spec fn workspace_operations<W>(workspaces: Seq<WorkspaceView<W>>) -> Seq<OperationView<W>>
    decreases workspaces.len(),
{
    if workspaces.len() == 0 {
        Seq::empty()
    } else {
        workspace_operations(workspaces.drop_last()) + if workspaces.last().changed {
            window_operations(workspaces.last().windows.items)
        } else {
            Seq::empty()
        }
    }
}

/// What brings the display in step with `state`: to end, and nothing
/// else, once the state says so; otherwise to place and show or hide the
/// windows of every workspace that was touched.
pub open spec fn operations<W>(state: StateView<W>) -> Seq<OperationView<W>> {
    if state.quit {
        seq![OperationView::Quit]
    } else {
        workspace_operations(state.workspaces.items)
    }
}

/// The views of `ops`, in order.
pub open spec fn views<'a, W>(ops: Seq<Operation<'a, W>>) -> Seq<OperationView<W>> {
    Seq::new(ops.len(), |i: int| ops[i]@)
}

/// Every window that `ops` put at its place has one.
pub open spec fn all_placed<'a, W>(ops: Seq<Operation<'a, W>>) -> bool {
    forall|i: int|
        0 <= i < ops.len() ==> (#[trigger] ops[i] matches Operation::Configure(window)
            ==> window.view.is_some())
}

/// Adds to `ops` the operations on the windows of `workspace`.
fn push_window_operations<'a, W>(workspace: &'a Workspace<W>, ops: &mut Vec<Operation<'a, W>>)
    requires
        all_placed(old(ops)@),
    ensures
        views(final(ops)@) == views(old(ops)@) + window_operations(workspace@.windows.items),
        all_placed(final(ops)@),
{
    let windows = workspace.windows();
    let n = windows.len();
    let mut k: usize = 0;
    assert(views(ops@) =~= views(old(ops)@) + window_operations(windows@.items.take(0)));
    while k < n
        invariant
            k <= n,
            n == windows@.items.len(),
            workspace@.wf(),
            windows@ == workspace@.windows,
            views(ops@) == views(old(ops)@) + window_operations(windows@.items.take(k as int)),
            all_placed(ops@),
        decreases n - k,
    {
        assert(windows@.items.take(k + 1).drop_last() =~= windows@.items.take(k as int));
        match windows.get(k) {
            Some(window) => {
                let ghost before = ops@;
                ops.push(Operation::Configure(window));
                ops.push(Operation::SetVisibility(window.id(), window.is_visible()));
                assert(views(ops@) =~= views(before) + seq![
                    OperationView::Configure(*window),
                    OperationView::SetVisibility(window.id, window.visible),
                ]);
            },
            None => {},
        }
        k = k + 1;
    }
    assert(windows@.items.take(n as int) =~= windows@.items);
}

/// What to ask of the display server to bring the display in step with
/// `state`. Every window that is to be put at its place has one.
pub fn reconcile<'a, W>(state: &'a State<W>) -> (ops: Vec<Operation<'a, W>>)
    ensures
        views(ops@) == operations(state@),
        all_placed(ops@),
{
    let mut ops: Vec<Operation<'a, W>> = Vec::new();
    if state.quit {
        ops.push(Operation::Quit);
        assert(views(ops@) =~= operations(state@));
        return ops;
    }
    let count = state.workspaces.len();
    let mut at: usize = 0;
    assert(views(ops@) =~= workspace_operations(state@.workspaces.items.take(0)));
    while at < count
        invariant
            at <= count,
            count == state@.workspaces.items.len(),
            views(ops@) == workspace_operations(state@.workspaces.items.take(at as int)),
            all_placed(ops@),
        decreases count - at,
    {
        assert(state@.workspaces.items.take(at + 1).drop_last() =~= state@.workspaces.items.take(
            at as int,
        ));
        match state.workspaces.get(at) {
            Some(workspace) => {
                if workspace.is_changed() {
                    push_window_operations(workspace, &mut ops);
                } else {
                    assert(views(ops@) + Seq::<OperationView<W>>::empty() =~= views(ops@));
                }
            },
            None => {},
        }
        at = at + 1;
    }
    assert(state@.workspaces.items.take(count as int) =~= state@.workspaces.items);
    ops
}

/// The window manager: its settings, its display server and its key bindings.
pub struct Manager<D: DisplayServer> {
    config: Config,
    display: D,
    handlers: HashMap<D::KeyCombo, Command>,
}

impl<D: DisplayServer> Manager<D> {
    /// A window manager with these settings, connected to the display, with
    /// the key bindings that are there from the start.
    pub fn new(config: Config) -> (manager: Self)
        ensures
            manager.spec_config() == config,
            obeys_key_model::<D::KeyCombo>() && D::KeyCombo::obeys_from_spec() ==> is_default_table(
                config.mod_key,
                manager.spec_handlers(),
            ),
    {
        let display = D::new(&config);
        let handlers = Command::new(&config);
        Manager { config, display, handlers }
    }

    /// The settings.
    pub closed spec fn spec_config(&self) -> Config {
        self.config
    }

    /// The display server.
    pub closed spec fn spec_display(&self) -> D {
        self.display
    }

    /// The key bindings: the command under each key.
    pub closed spec fn spec_handlers(&self) -> Map<D::KeyCombo, Command> {
        self.handlers@
    }

    pub fn config(&self) -> (config: &Config)
        ensures
            *config == self.spec_config(),
    {
        &self.config
    }

    pub fn display(&self) -> (display: &D)
        ensures
            *display == self.spec_display(),
    {
        &self.display
    }

    /// The key bindings.
    pub fn handlers(&self) -> (handlers: &HashMap<D::KeyCombo, Command>)
        ensures
            handlers@ == self.spec_handlers(),
    {
        &self.handlers
    }

    /// The program that `event` asks to start, if it asks for one. The
    /// manager does not start it: that is left to the caller.
    pub fn program(&self, event: &Event<D::Window, D::KeyCombo>) -> (program: Option<&str>)
        ensures
            obeys_key_model::<D::KeyCombo>() ==> match program {
                Some(name) => program_for(*event, self.spec_handlers()) == Some(name@),
                None => program_for(*event, self.spec_handlers()).is_none(),
            },
    {
        Command::program_for(event, &self.handlers)
    }

    /// Asks the display server for what brings the display in step with
    /// `state` (see [`reconcile`]).
    fn update(&self, state: &State<D::Window>) {
        let ops = reconcile(state);
        let mut i: usize = 0;
        while i < ops.len()
            invariant
                all_placed(ops@),
            decreases ops@.len() - i,
        {
            match ops[i] {
                Operation::Quit => self.display.quit(),
                Operation::Configure(window) => self.display.configure_window(window),
                Operation::SetVisibility(id, show) => self.display.set_visibility(id, show),
            }
            i = i + 1;
        }
    }

    /// One turn of the loop: takes the step that `event` leads to, brings
    /// the display in step with the state, and clears the marks of the
    /// workspaces.
    pub fn turn(&self, state: State<D::Window>, event: Event<D::Window, D::KeyCombo>) -> (next: State<
        D::Window,
    >)
        requires
            event matches Event::ScreenAdded(_, viewport) ==> viewport.fits(),
        ensures
            decided(event) ==> next@ == state@.handle_event(event, self.spec_handlers()).reset(),
    {
        let state = state.handle_event(event, &self.handlers);
        self.update(&state);
        state.reset()
    }
}

} // verus!

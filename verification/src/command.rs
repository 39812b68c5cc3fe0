//! What a key binding can ask of the window manager.

use std::collections::HashMap;
use std::hash::Hash;
use vstd::prelude::*;
use vstd::std_specs::convert::FromSpec;
use vstd::std_specs::hash::obeys_key_model;
use crate::config::Config;
use crate::displays::Event;
use crate::keys::{Key, KeyCombo, KeyComboView, ModKey};
use crate::stack::reversed;
use crate::state::{State, StateView};

verus! {

/// Something that a key binding asks for.
#[derive(Debug, PartialEq, Eq)]
pub enum Command {
    /// Start the program of this name.
    Spawn(String),
    NextWindow,
    PreviousWindow,
    /// Make the workspace at this position the current one.
    GoToWorkspace(usize),
    Quit,
}

/// What a [`Command`] holds.
pub enum CommandView {
    Spawn(Seq<char>),
    NextWindow,
    PreviousWindow,
    GoToWorkspace(nat),
    Quit,
}

impl View for Command {
    type V = CommandView;

    open spec fn view(&self) -> CommandView {
        match self {
            Command::Spawn(program) => CommandView::Spawn(program@),
            Command::NextWindow => CommandView::NextWindow,
            Command::PreviousWindow => CommandView::PreviousWindow,
            Command::GoToWorkspace(position) => CommandView::GoToWorkspace(*position as nat),
            Command::Quit => CommandView::Quit,
        }
    }
}

impl Clone for Command {
    fn clone(&self) -> (command: Self)
        ensures
            command == *self,
    {
        match self {
            Command::Spawn(program) => Command::Spawn(program.clone()),
            Command::NextWindow => Command::NextWindow,
            Command::PreviousWindow => Command::PreviousWindow,
            Command::GoToWorkspace(position) => Command::GoToWorkspace(*position),
            Command::Quit => Command::Quit,
        }
    }
}

impl CommandView {
    /// The state after the command. To start a program is no step of the
    /// state: the state stays as it is.
    pub open spec fn execute<W>(self, state: StateView<W>) -> StateView<W> {
        match self {
            CommandView::Spawn(_) => state,
            CommandView::NextWindow => state.next_window(),
            CommandView::PreviousWindow => state.previous_window(),
            CommandView::GoToWorkspace(position) => state.goto_workspace(position as int),
            CommandView::Quit => state.quit(),
        }
    }

    /// The program that the command starts, if it starts one.
    pub open spec fn program(self) -> Option<Seq<char>> {
        match self {
            CommandView::Spawn(program) => Some(program),
            _ => None,
        }
    }
}

/// The number of key bindings that are there from the start.
pub const DEFAULT_BINDINGS: usize = 14;

/// The key of the default binding at `i`, which is held with `mod_key`.
pub open spec fn default_combo(mod_key: ModKey, i: int) -> KeyComboView {
    if i == 0 {
        KeyComboView { mod_keys: seq![mod_key], key: 'p' }
    } else if i == 1 {
        KeyComboView { mod_keys: seq![mod_key], key: 'j' }
    } else if i == 2 {
        KeyComboView { mod_keys: seq![mod_key], key: 'k' }
    } else if i == 3 {
        KeyComboView { mod_keys: seq![mod_key, ModKey::Shift], key: 'q' }
    } else if i == 4 {
        KeyComboView { mod_keys: seq![mod_key, ModKey::Shift], key: 'u' }
    } else {
        KeyComboView { mod_keys: seq![mod_key], key: digit(i - 4) }
    }
}

/// The command of the default binding at `i`: a launcher, the following and
/// the preceding window, the end, a terminal, and the workspaces by number.
pub open spec fn default_command(i: int) -> CommandView {
    if i == 0 {
        CommandView::Spawn("dmenu_run"@)
    } else if i == 1 {
        CommandView::NextWindow
    } else if i == 2 {
        CommandView::PreviousWindow
    } else if i == 3 {
        CommandView::Quit
    } else if i == 4 {
        CommandView::Spawn("urxvt"@)
    } else {
        CommandView::GoToWorkspace((i - 5) as nat)
    }
}

/// The character of the digit `d`.
pub open spec fn digit(d: int) -> char {
    ('0' as u8 + d) as char
}

/// `bindings` are the default bindings in their order.
pub open spec fn are_defaults(mod_key: ModKey, bindings: Seq<(KeyCombo, Command)>) -> bool {
    &&& bindings.len() == DEFAULT_BINDINGS
    &&& forall|i: int|
        0 <= i < bindings.len() ==> {
            &&& (#[trigger] bindings[i]).0@ == default_combo(mod_key, i)
            &&& bindings[i].1@ == default_command(i)
        }
}

/// The table that `bindings` make, one after the other, each under the key
/// that `K` makes of its key combination. A later binding takes the place of
/// an earlier one under the same key.
pub open spec fn table_of<K: From<KeyCombo>>(bindings: Seq<(KeyCombo, Command)>) -> Map<K, Command>
    decreases bindings.len(),
{
    if bindings.len() == 0 {
        Map::empty()
    } else {
        table_of::<K>(bindings.drop_last()).insert(
            K::from_spec(bindings.last().0),
            bindings.last().1,
        )
    }
}

/// `table` is made of the default bindings in their order, each under the
/// key that `K` makes of its key combination.
pub open spec fn is_default_table<K: From<KeyCombo>>(mod_key: ModKey, table: Map<K, Command>) -> bool {
    exists|bindings: Seq<(KeyCombo, Command)>|
        #[trigger] are_defaults(mod_key, bindings) && table == table_of::<K>(bindings)
}

/// The program that `event` asks to start: that of the command bound to the
/// pressed key, if that command starts one.
pub open spec fn program_for<W, K>(event: Event<W, K>, handlers: Map<K, Command>) -> Option<Seq<char>> {
    match event {
        Event::KeyPressed(key) => if handlers.contains_key(key) {
            handlers[key]@.program()
        } else {
            None
        },
        _ => None,
    }
}

fn combo(mod_key: ModKey, shift: bool, key: char) -> (combo: KeyCombo)
    ensures
        combo@ == (KeyComboView {
            mod_keys: if shift {
                seq![mod_key, ModKey::Shift]
            } else {
                seq![mod_key]
            },
            key,
        }),
{
    let mut mod_keys: Vec<ModKey> = Vec::new();
    mod_keys.push(mod_key);
    if shift {
        mod_keys.push(ModKey::Shift);
    }
    let combo = KeyCombo { mod_keys, key: Key(key) };
    assert(combo@.mod_keys =~= if shift {
        seq![mod_key, ModKey::Shift]
    } else {
        seq![mod_key]
    });
    combo
}

impl Command {
    /// The key bindings that are there from the start, in their order.
    pub fn defaults(config: &Config) -> (bindings: Vec<(KeyCombo, Command)>)
        ensures
            are_defaults(config.mod_key, bindings@),
    {
        let mod_key = config.mod_key;
        let mut bindings: Vec<(KeyCombo, Command)> = Vec::new();
        bindings.push((combo(mod_key, false, 'p'), Command::Spawn("dmenu_run".to_owned())));
        bindings.push((combo(mod_key, false, 'j'), Command::NextWindow));
        bindings.push((combo(mod_key, false, 'k'), Command::PreviousWindow));
        bindings.push((combo(mod_key, true, 'q'), Command::Quit));
        bindings.push((combo(mod_key, true, 'u'), Command::Spawn("urxvt".to_owned())));
        let mut position: u8 = 0;
        while position < 9
            invariant
                position <= 9,
                bindings@.len() == 5 + position,
                forall|i: int|
                    0 <= i < bindings@.len() ==> {
                        &&& (#[trigger] bindings@[i]).0@ == default_combo(mod_key, i)
                        &&& bindings@[i].1@ == default_command(i)
                    },
            decreases 9 - position,
        {
            let key = (49u8 + position) as char;
            bindings.push((combo(mod_key, false, key), Command::GoToWorkspace(position as usize)));
            position = position + 1;
        }
        bindings
    }

    /// The table of the key bindings that are there from the start, each
    /// under the key that `K` makes of its key combination.
    pub fn new<K: From<KeyCombo> + Hash + Eq>(config: &Config) -> (handlers: HashMap<K, Command>)
        ensures
            obeys_key_model::<K>() && K::obeys_from_spec() ==> is_default_table(
                config.mod_key,
                handlers@,
            ),
    {
        let bindings = Command::defaults(config);
        let ghost all = bindings@;
        let mut rest = reversed(bindings);
        let mut handlers: HashMap<K, Command> = HashMap::new();
        while rest.len() > 0
            invariant
                rest@.len() <= all.len(),
                forall|i: int| 0 <= i < rest@.len() ==> rest@[i] == all[all.len() - 1 - i],
                obeys_key_model::<K>() && K::obeys_from_spec() ==> handlers@ == table_of::<K>(
                    all.take(all.len() - rest@.len()),
                ),
            decreases rest@.len(),
        {
            let ghost done = all.len() - rest@.len();
            let (combo, command) = rest.pop().unwrap();
            handlers.insert(K::from(combo), command);
            assert(all.take(done + 1).drop_last() =~= all.take(done));
        }
        assert(all.take(all.len() as int) =~= all);
        assert(are_defaults(config.mod_key, all));
        handlers
    }

    /// The program that `event` asks to start, if it asks for one. The
    /// state takes no step for it (see [`Command::execute`]): to start the
    /// program is left to the caller.
    pub fn program_for<'a, W, K: Hash + Eq>(
        event: &Event<W, K>,
        handlers: &'a HashMap<K, Command>,
    ) -> (program: Option<&'a str>)
        ensures
            obeys_key_model::<K>() ==> match program {
                Some(name) => program_for(*event, handlers@) == Some(name@),
                None => program_for(*event, handlers@).is_none(),
            },
    {
        match event {
            Event::KeyPressed(key) => match handlers.get(key) {
                Some(command) => command.program(),
                None => None,
            },
            _ => None,
        }
    }

    /// The program that the command starts, if it starts one.
    pub fn program(&self) -> (program: Option<&str>)
        ensures
            match program {
                Some(name) => self@.program() == Some(name@),
                None => self@.program().is_none(),
            },
    {
        match self {
            Command::Spawn(program) => Some(program.as_str()),
            _ => None,
        }
    }

    /// The state after the command. To start a program is no step of the
    /// state; [`Command::program`] names the program for whoever starts it.
    pub fn execute<W>(&self, state: State<W>) -> (next: State<W>)
        ensures
            next@ == self@.execute(state@),
    {
        match self {
            Command::Spawn(_) => state,
            Command::NextWindow => state.next_window(),
            Command::PreviousWindow => state.previous_window(),
            Command::GoToWorkspace(position) => state.goto_workspace(*position),
            Command::Quit => state.quit(),
        }
    }
}

} // verus!

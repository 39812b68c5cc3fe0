use std::collections::HashMap;

use rwm::command::Command;
use rwm::config::Config;
use rwm::displays::Event;
use rwm::keys::xcb_keys::{XcbKeyCombo, XcbKeyConvert};
use rwm::keys::{Key, KeyCombo, ModKey};
use rwm::layouts::Layout;
use rwm::state::State;
use rwm::window::WindowType;

fn keys(mod_keys: Vec<ModKey>, key: char) -> KeyCombo {
    KeyCombo { mod_keys, key: Key(key) }
}

#[test]
fn the_standard_config() {
    let config = Config::new();
    assert_eq!(config.mod_key, ModKey::Mod4);
    assert_eq!(config.workspaces, vec!["1", "2", "3", "4", "5", "6", "7", "8"]);
    assert_eq!(config.layouts, vec![Layout::Tall, Layout::FullScreen]);
}

#[test]
fn the_default_bindings_in_order() {
    let mut config = Config::new();
    config.mod_key = ModKey::Mod1;
    let bindings = Command::defaults(&config);
    let held = vec![ModKey::Mod1];
    let shifted = vec![ModKey::Mod1, ModKey::Shift];
    let expected = vec![
        (keys(held.clone(), 'p'), Command::Spawn("dmenu_run".to_string())),
        (keys(held.clone(), 'j'), Command::NextWindow),
        (keys(held.clone(), 'k'), Command::PreviousWindow),
        (keys(shifted.clone(), 'q'), Command::Quit),
        (keys(shifted.clone(), 'u'), Command::Spawn("urxvt".to_string())),
        (keys(held.clone(), '1'), Command::GoToWorkspace(0)),
        (keys(held.clone(), '2'), Command::GoToWorkspace(1)),
        (keys(held.clone(), '3'), Command::GoToWorkspace(2)),
        (keys(held.clone(), '4'), Command::GoToWorkspace(3)),
        (keys(held.clone(), '5'), Command::GoToWorkspace(4)),
        (keys(held.clone(), '6'), Command::GoToWorkspace(5)),
        (keys(held.clone(), '7'), Command::GoToWorkspace(6)),
        (keys(held.clone(), '8'), Command::GoToWorkspace(7)),
        (keys(held.clone(), '9'), Command::GoToWorkspace(8)),
    ];
    assert_eq!(bindings, expected);
}

#[test]
fn the_default_table_under_the_keys_of_the_x_server() {
    let handlers: HashMap<XcbKeyCombo, Command> = Command::new(&Config::new());
    assert_eq!(handlers.len(), 14);
    let at = |mod_mask: u32, key: char| handlers.get(&XcbKeyCombo { mod_mask, key: key as u32 });
    assert_eq!(at(0x40, 'p'), Some(&Command::Spawn("dmenu_run".to_string())));
    assert_eq!(at(0x40, 'j'), Some(&Command::NextWindow));
    assert_eq!(at(0x40, 'k'), Some(&Command::PreviousWindow));
    assert_eq!(at(0x41, 'q'), Some(&Command::Quit));
    assert_eq!(at(0x41, 'u'), Some(&Command::Spawn("urxvt".to_string())));
    assert_eq!(at(0x40, '1'), Some(&Command::GoToWorkspace(0)));
    assert_eq!(at(0x40, '5'), Some(&Command::GoToWorkspace(4)));
    assert_eq!(at(0x40, '9'), Some(&Command::GoToWorkspace(8)));
    assert_eq!(at(0x40, '0'), None);
    assert_eq!(at(0x40, 'q'), None);
    assert_eq!(at(0x01, 'p'), None);
}

#[test]
fn a_key_combination_in_the_terms_of_the_x_server() {
    let converted = XcbKeyConvert.convert(keys(vec![ModKey::Mod4, ModKey::Shift], 'q'));
    assert_eq!(converted, XcbKeyCombo { mod_mask: 0x41, key: 113 });
    let converted = XcbKeyConvert.convert(keys(vec![], 'a'));
    assert_eq!(converted, XcbKeyCombo { mod_mask: 0, key: 97 });
    let converted = XcbKeyConvert.convert(keys(vec![ModKey::Control, ModKey::Control, ModKey::Mod1], '1'));
    assert_eq!(converted, XcbKeyCombo { mod_mask: 0x0c, key: 49 });
    let converted: XcbKeyCombo = keys(vec![ModKey::Lock, ModKey::Mod5], 'é').into();
    assert_eq!(converted, XcbKeyCombo { mod_mask: 0x82, key: 0xe9 });
}

#[test]
fn the_bit_of_each_modifier_key() {
    assert_eq!(u32::from(ModKey::Shift), 1);
    assert_eq!(u32::from(ModKey::Lock), 2);
    assert_eq!(u32::from(ModKey::Control), 4);
    assert_eq!(u32::from(ModKey::Mod1), 8);
    assert_eq!(u32::from(ModKey::Mod2), 16);
    assert_eq!(u32::from(ModKey::Mod3), 32);
    assert_eq!(u32::from(ModKey::Mod4), 64);
    assert_eq!(u32::from(ModKey::Mod5), 128);
    assert_eq!(u32::from(Key('j')), 106);
}

#[test]
fn modifier_keys_have_names() {
    assert_eq!(ModKey::from_name("shift"), Some(ModKey::Shift));
    assert_eq!(ModKey::from_name("ctrl"), Some(ModKey::Control));
    assert_eq!(ModKey::from_name("lock"), Some(ModKey::Lock));
    assert_eq!(ModKey::from_name("mod1"), Some(ModKey::Mod1));
    assert_eq!(ModKey::from_name("mod2"), Some(ModKey::Mod2));
    assert_eq!(ModKey::from_name("mod3"), Some(ModKey::Mod3));
    assert_eq!(ModKey::from_name("mod4"), Some(ModKey::Mod4));
    assert_eq!(ModKey::from_name("mod5"), Some(ModKey::Mod5));
    assert_eq!(ModKey::from_name("control"), None);
    assert_eq!(ModKey::from_name("mod6"), None);
    assert_eq!(ModKey::from_name(""), None);
}

#[test]
fn only_spawn_names_a_program() {
    assert_eq!(Command::Spawn("urxvt".to_string()).program(), Some("urxvt"));
    assert_eq!(Command::NextWindow.program(), None);
    assert_eq!(Command::PreviousWindow.program(), None);
    assert_eq!(Command::GoToWorkspace(1).program(), None);
    assert_eq!(Command::Quit.program(), None);
}

#[test]
fn the_program_that_an_event_asks_for() {
    let handlers: HashMap<XcbKeyCombo, Command> = Command::new(&Config::new());
    let pressed = |mod_mask: u32, key: char| -> Event<u32, XcbKeyCombo> {
        Event::KeyPressed(XcbKeyCombo { mod_mask, key: key as u32 })
    };
    assert_eq!(Command::program_for(&pressed(0x40, 'p'), &handlers), Some("dmenu_run"));
    assert_eq!(Command::program_for(&pressed(0x41, 'u'), &handlers), Some("urxvt"));
    assert_eq!(Command::program_for(&pressed(0x40, 'j'), &handlers), None);
    assert_eq!(Command::program_for(&pressed(0x40, 'x'), &handlers), None);
    assert_eq!(Command::program_for(&Event::WindowAdded(1, WindowType::Normal), &handlers), None);
    assert_eq!(Command::program_for(&Event::<u32, XcbKeyCombo>::Ignored, &handlers), None);
}

#[test]
fn each_command_takes_its_step() {
    let config = Config::new();
    let handlers: HashMap<XcbKeyCombo, Command> = HashMap::new();
    let state: State<u32> = State::new(&config);
    let state = state.handle_event(Event::WindowAdded(1, WindowType::Normal), &handlers);
    let state = state.handle_event(Event::WindowAdded(2, WindowType::Normal), &handlers);
    let state = Command::Spawn("true".to_string()).execute(state);
    assert_eq!(state.workspaces[0].windows().current_index(), Some(0));
    assert_eq!(state.workspaces.current_index(), Some(0));
    let state = Command::NextWindow.execute(state);
    assert_eq!(state.workspaces[0].windows().current_index(), Some(1));
    let state = Command::PreviousWindow.execute(state);
    assert_eq!(state.workspaces[0].windows().current_index(), Some(0));
    let state = Command::GoToWorkspace(4).execute(state);
    assert_eq!(state.workspaces.current_index(), Some(4));
    let state = Command::GoToWorkspace(8).execute(state);
    assert_eq!(state.workspaces.current_index(), Some(4));
    assert!(!state.quit);
    let state = Command::Quit.execute(state);
    assert!(state.quit);
    assert_eq!(state.workspaces.current_index(), Some(4));
}

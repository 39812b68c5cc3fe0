use std::cell::RefCell;

use rwm::command::Command;
use rwm::config::Config;
use rwm::displays::xcb_server::{get_screen_view, match_event, XcbEvent};
use rwm::displays::{DisplayServer, Event};
use rwm::keys::xcb_keys::XcbKeyCombo;
use rwm::keys::ModKey;
use rwm::layouts::Layout;
use rwm::manager::{reconcile, Manager, Operation};
use rwm::state::State;
use rwm::window::{Geometry, Window, WindowType};

/// A display server that writes down what it is asked.
struct Recorder {
    asked: RefCell<Vec<String>>,
}

impl DisplayServer for Recorder {
    type Window = u32;
    type KeyCombo = XcbKeyCombo;

    fn new(_config: &Config) -> Self {
        Recorder { asked: RefCell::new(Vec::new()) }
    }

    fn configure_window(&self, window: &Window<u32>) {
        let view = window.get_view();
        self.asked.borrow_mut().push(format!(
            "configure {} {}:{} {}x{}",
            window.id, view.position.x, view.position.y, view.size.width, view.size.height
        ));
    }

    fn set_visibility(&self, window: &u32, show: bool) {
        self.asked.borrow_mut().push(format!("visibility {} {}", window, show));
    }

    fn quit(&self) {
        self.asked.borrow_mut().push("quit".to_string());
    }
}

fn three_workspaces() -> Config {
    Config {
        mod_key: ModKey::Mod4,
        workspaces: vec!["1".to_string(), "2".to_string(), "3".to_string()],
        layouts: vec![Layout::Tall],
    }
}

fn pressed(mod_mask: u32, key: char) -> Event<u32, XcbKeyCombo> {
    Event::KeyPressed(XcbKeyCombo { mod_mask, key: key as u32 })
}

fn asked(manager: &Manager<Recorder>) -> Vec<String> {
    manager.display().asked.borrow_mut().drain(..).collect()
}

fn describe(ops: &[Operation<u32>]) -> Vec<String> {
    ops.iter()
        .map(|op| match op {
            Operation::Quit => "quit".to_string(),
            Operation::Configure(window) => format!("configure {}", window.id),
            Operation::SetVisibility(id, show) => format!("visibility {} {}", id, show),
        })
        .collect()
}

#[test]
fn nothing_to_do_for_a_state_that_was_not_touched() {
    let state: State<u32> = State::new(&three_workspaces());
    assert!(reconcile(&state).is_empty());
    let state = state.add_window(1, WindowType::Normal).reset();
    assert!(reconcile(&state).is_empty());
}

#[test]
fn touched_workspaces_have_their_windows_placed_and_shown() {
    let state: State<u32> = State::new(&three_workspaces());
    let state = state.add_window(1, WindowType::Normal).add_window(2, WindowType::Normal);
    assert_eq!(
        describe(&reconcile(&state)),
        vec!["configure 2", "visibility 2 true", "configure 1", "visibility 1 true"]
    );
    let state = state.reset().goto_workspace(1).add_window(3, WindowType::Normal);
    assert_eq!(
        describe(&reconcile(&state)),
        vec![
            "configure 2",
            "visibility 2 false",
            "configure 1",
            "visibility 1 false",
            "configure 3",
            "visibility 3 true"
        ]
    );
    assert!(reconcile(&state).iter().all(|op| match op {
        Operation::Configure(window) => window.has_view(),
        _ => true,
    }));
}

#[test]
fn scenario_quit_asks_the_display_to_end_and_nothing_else() {
    let state: State<u32> = State::new(&three_workspaces());
    let state = state.add_window(1, WindowType::Normal);
    let state = Command::Quit.execute(state);
    assert!(state.quit);
    assert_eq!(describe(&reconcile(&state)), vec!["quit"]);
}

#[test]
fn the_manager_keeps_the_display_in_step() {
    let manager: Manager<Recorder> = Manager::new(three_workspaces());
    assert_eq!(manager.config().workspaces.len(), 3);
    assert_eq!(manager.handlers().len(), 14);
    let state: State<u32> = State::new(manager.config());
    let state = manager.turn(state, Event::ScreenAdded(0, get_screen_view(800, 600)));
    assert!(asked(&manager).is_empty());
    let state = manager.turn(state, Event::WindowAdded(1, WindowType::Normal));
    assert_eq!(asked(&manager), vec!["configure 1 0:0 800x600", "visibility 1 true"]);
    assert!(!state.workspaces[0].is_changed());
    let state = manager.turn(state, Event::WindowAdded(2, WindowType::Normal));
    assert_eq!(
        asked(&manager),
        vec![
            "configure 2 0:0 400x600",
            "visibility 2 true",
            "configure 1 400:0 400x600",
            "visibility 1 true"
        ]
    );
    let state = manager.turn(state, Event::Ignored);
    assert!(asked(&manager).is_empty());
    let state = manager.turn(state, pressed(0x40, 'x'));
    assert!(asked(&manager).is_empty());
    let state = manager.turn(state, Event::WindowRemoved(5));
    assert!(asked(&manager).is_empty());
    let state = manager.turn(state, pressed(0x40, '2'));
    assert_eq!(
        asked(&manager),
        vec![
            "configure 2 0:0 400x600",
            "visibility 2 false",
            "configure 1 400:0 400x600",
            "visibility 1 false"
        ]
    );
    assert_eq!(state.workspaces.current_index(), Some(1));
    let state = manager.turn(state, Event::WindowRemoved(2));
    assert_eq!(asked(&manager), vec!["configure 1 0:0 800x600", "visibility 1 true"]);
    assert_eq!(state.workspaces[0].len(), 1);
}

#[test]
fn scenario_quit_reaches_the_display_once() {
    let manager: Manager<Recorder> = Manager::new(three_workspaces());
    let state: State<u32> = State::new(manager.config());
    let state = manager.turn(state, Event::WindowAdded(1, WindowType::Normal));
    asked(&manager);
    let state = manager.turn(state, pressed(0x41, 'q'));
    assert!(state.quit);
    assert_eq!(asked(&manager), vec!["quit"]);
}

#[test]
fn the_manager_names_the_program_to_start() {
    let manager: Manager<Recorder> = Manager::new(three_workspaces());
    assert_eq!(manager.program(&pressed(0x40, 'p')), Some("dmenu_run"));
    assert_eq!(manager.program(&pressed(0x41, 'u')), Some("urxvt"));
    assert_eq!(manager.program(&pressed(0x40, 'k')), None);
    assert_eq!(manager.program(&Event::DisplayEnded), None);
    let state: State<u32> = State::new(manager.config());
    let state = manager.turn(state, pressed(0x40, 'p'));
    assert!(asked(&manager).is_empty());
    assert!(!state.quit);
}

#[test]
fn reports_of_the_x_server_read_as_events() {
    assert_eq!(match_event(XcbEvent::ConfigureRequest), Event::Ignored);
    assert_eq!(
        match_event(XcbEvent::KeyPress { state: 0x41, keysym: 113 }),
        Event::KeyPressed(XcbKeyCombo { mod_mask: 0x41, key: 113 })
    );
    assert_eq!(
        match_event(XcbEvent::MapRequest { window: 7 }),
        Event::WindowAdded(7, WindowType::Normal)
    );
    assert_eq!(match_event(XcbEvent::UnmapNotify { event: 8 }), Event::WindowRemoved(8));
    assert_eq!(match_event(XcbEvent::DestroyNotify { window: 9 }), Event::WindowRemoved(9));
    assert_eq!(match_event(XcbEvent::EnterNotify { event: 3 }), Event::WindowFocused(3));
    assert_eq!(match_event(XcbEvent::Other), Event::Ignored);
}

#[test]
fn the_rectangle_of_a_screen_fits() {
    assert_eq!(get_screen_view(1920, 1080), Geometry::new(0, 0, 1920, 1080));
    let largest = get_screen_view(u16::MAX, u16::MAX);
    assert_eq!(largest, Geometry::new(0, 0, 65535, 65535));
    assert!(largest.fits());
}

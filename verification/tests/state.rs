use dwarf_game::state::{
    EntityKey, GameState, InitState, KeyInput, MenuEvent, MenuResponse, MenuState, RunningState,
    Transition,
};

fn key(id: u32) -> EntityKey {
    EntityKey { id, generation: 1 }
}

fn window(close_requested: bool, escape_down: bool, space_down: bool) -> KeyInput {
    KeyInput { close_requested, escape_down, space_down }
}

fn menu() -> MenuState {
    let mut m = MenuState::default();
    m.on_start(key(1));
    m.update(Some(key(5)), Some(key(3)), Some(key(4)), Some(key(2)));
    m
}

const QUIET: MenuResponse = MenuResponse {
    trans: Transition::Stay,
    print_start: false,
    print_load: false,
    print_options: false,
};

#[test]
fn menu_buttons() {
    let mut m = menu();
    assert!(!m.needs_buttons());
    assert_eq!(m.handle_event(MenuEvent::UiClick(key(5))), MenuResponse { trans: Transition::Quit, ..QUIET });
    assert_eq!(
        m.handle_event(MenuEvent::UiClick(key(2))),
        MenuResponse { trans: Transition::Switch(GameState::Init), print_start: true, ..QUIET }
    );
    assert_eq!(m.handle_event(MenuEvent::UiClick(key(3))), MenuResponse { print_load: true, ..QUIET });
    assert_eq!(m.handle_event(MenuEvent::UiClick(key(4))), MenuResponse { print_options: true, ..QUIET });
    assert_eq!(m.handle_event(MenuEvent::UiClick(key(9))), QUIET);
    // Same index, other generation: a different entity.
    assert_eq!(m.handle_event(MenuEvent::UiClick(EntityKey { id: 5, generation: 2 })), QUIET);
}

#[test]
fn menu_window_events() {
    let mut m = menu();
    assert_eq!(m.handle_event(MenuEvent::Window(window(true, false, false))).trans, Transition::Quit);
    assert_eq!(m.handle_event(MenuEvent::Window(window(false, true, false))).trans, Transition::Quit);
    assert_eq!(m.handle_event(MenuEvent::Window(window(false, false, true))), QUIET);
    assert_eq!(m.handle_event(MenuEvent::Other), QUIET);
}

#[test]
fn menu_unknown_buttons_do_nothing() {
    let mut m = MenuState::default();
    assert!(m.needs_buttons());
    assert_eq!(m.handle_event(MenuEvent::UiClick(key(5))), QUIET);
    m.update(Some(key(5)), None, None, None);
    assert!(m.needs_buttons());
    assert_eq!(m.handle_event(MenuEvent::UiClick(key(5))).trans, Transition::Quit);
}

#[test]
fn menu_stop_forgets_ui() {
    let mut m = menu();
    assert_eq!(m.on_stop(), Some(key(1)));
    assert_eq!(m, MenuState::default());
    assert_eq!(m.on_stop(), None);
}

#[test]
fn init_switches_to_running_when_finished() {
    let mut s = InitState::default();
    assert_eq!(s.update(), Transition::Stay);
    s.on_start();
    assert_eq!(s.update(), Transition::Switch(GameState::Running));
}

#[test]
fn running_pause_and_quit() {
    let mut s = RunningState::default();
    assert!(s.runs_simulation());
    assert_eq!(s.handle_event(Some(window(false, false, true))), Transition::Stay);
    assert!(s.paused && !s.runs_simulation());
    assert_eq!(s.handle_event(Some(window(false, false, true))), Transition::Stay);
    assert!(!s.paused);
    assert_eq!(s.handle_event(Some(window(false, true, true))), Transition::Quit);
    assert!(!s.paused);
    assert_eq!(s.handle_event(Some(window(true, false, false))), Transition::Quit);
    assert_eq!(s.handle_event(None), Transition::Stay);
    assert!(!s.paused);
}

#[test]
fn fps_refresh_every_twenty_frames() {
    assert!(RunningState::fps_due(0));
    assert!(!RunningState::fps_due(19));
    assert!(RunningState::fps_due(20));
    assert!(RunningState::fps_due(400));
    assert!(!RunningState::fps_due(401));
}

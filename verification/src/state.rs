//! The game's screens as state machines: the main menu, the loading state
//! and the running game.
use vstd::prelude::*;

verus! {

/// Identifies an entity of the game world: its index and generation.
#[derive(Clone, Copy, Debug, PartialEq, Eq, Structural)]
pub struct EntityKey {
    pub id: u32,
    pub generation: i32,
}

/// The screens of the game.
#[derive(Clone, Copy, Debug, PartialEq, Eq, Structural)]
pub enum GameState {
    Menu,
    Init,
    Running,
}

/// What a screen asks the state machine to do next.
#[derive(Clone, Copy, Debug, PartialEq, Eq, Structural)]
pub enum Transition {
    /// Stay on this screen.
    Stay,
    /// Leave the game.
    Quit,
    /// Replace this screen by another.
    Switch(GameState),
}

/// A window event as the screens see it.
#[derive(Clone, Copy, Debug, PartialEq, Eq, Structural)]
pub struct KeyInput {
    /// The window was asked to close.
    pub close_requested: bool,
    /// Escape was pressed.
    pub escape_down: bool,
    /// Space was pressed.
    pub space_down: bool,
}

impl KeyInput {
    /// Closing the window or pressing escape leaves the game.
    pub open spec fn spec_wants_quit(self) -> bool {
        self.close_requested || self.escape_down
    }

    pub fn wants_quit(&self) -> (b: bool)
        ensures
            b == self.spec_wants_quit(),
    {
        self.close_requested || self.escape_down
    }
}

/// An event of the main menu.
#[derive(Clone, Copy, Debug, PartialEq, Eq, Structural)]
pub enum MenuEvent {
    Window(KeyInput),
    /// A UI element was clicked.
    UiClick(EntityKey),
    Other,
}

/// What the menu answers an event with: the transition and which of its
/// buttons' messages to print.
#[derive(Clone, Copy, Debug, PartialEq, Eq, Structural)]
pub struct MenuResponse {
    pub trans: Transition,
    pub print_start: bool,
    pub print_load: bool,
    pub print_options: bool,
}

/// Menu state: lets the user start a game, load one, change options or
/// exit.
#[derive(Clone, Copy, Debug, PartialEq, Eq, Structural)]
pub struct MenuState {
    pub ui_root: Option<EntityKey>,
    pub btn_start: Option<EntityKey>,
    pub btn_load: Option<EntityKey>,
    pub btn_opts: Option<EntityKey>,
    pub btn_exit: Option<EntityKey>,
}

impl Default for MenuState {
    fn default() -> (m: MenuState)
        ensures
            m.ui_root is None,
            m.btn_start is None,
            m.btn_load is None,
            m.btn_opts is None,
            m.btn_exit is None,
    {
        MenuState { ui_root: None, btn_exit: None, btn_load: None, btn_opts: None, btn_start: None }
    }
}

pub open spec fn clicked(button: Option<EntityKey>, target: EntityKey) -> bool {
    button == Some(target)
}

fn is_button(button: Option<EntityKey>, target: EntityKey) -> (b: bool)
    ensures
        b == clicked(button, target),
{
    match button {
        Some(k) => k.id == target.id && k.generation == target.generation,
        None => false,
    }
}

impl MenuState {
    /// Remembers the root of the menu UI just created.
    pub fn on_start(&mut self, ui_root: EntityKey)
        ensures
            *final(self) == (MenuState { ui_root: Some(ui_root), ..*old(self) }),
    {
        self.ui_root = Some(ui_root);
    }

    /// Closing the window or escape quits; clicking exit quits; clicking
    /// start prints "start" and switches to loading; clicking load or
    /// options prints its name and stays; anything else stays.
    pub fn handle_event(&mut self, event: MenuEvent) -> (r: MenuResponse)
        ensures
            *final(self) == *old(self),
            match event {
                MenuEvent::Window(k) => r == (MenuResponse {
                    trans: if k.spec_wants_quit() { Transition::Quit } else { Transition::Stay },
                    print_start: false,
                    print_load: false,
                    print_options: false,
                }),
                MenuEvent::UiClick(t) => if clicked(old(self).btn_exit, t) {
                    r == (MenuResponse {
                        trans: Transition::Quit,
                        print_start: false,
                        print_load: false,
                        print_options: false,
                    })
                } else if clicked(old(self).btn_start, t) {
                    r == (MenuResponse {
                        trans: Transition::Switch(GameState::Init),
                        print_start: true,
                        print_load: false,
                        print_options: false,
                    })
                } else {
                    r == (MenuResponse {
                        trans: Transition::Stay,
                        print_start: false,
                        print_load: clicked(old(self).btn_load, t),
                        print_options: clicked(old(self).btn_opts, t),
                    })
                },
                MenuEvent::Other => r == (MenuResponse {
                    trans: Transition::Stay,
                    print_start: false,
                    print_load: false,
                    print_options: false,
                }),
            },
    {
        let quiet = MenuResponse {
            trans: Transition::Stay,
            print_start: false,
            print_load: false,
            print_options: false,
        };
        match event {
            MenuEvent::Window(k) => {
                if k.wants_quit() {
                    return MenuResponse { trans: Transition::Quit, ..quiet };
                }
            },
            MenuEvent::UiClick(target) => {
                if is_button(self.btn_exit, target) {
                    return MenuResponse { trans: Transition::Quit, ..quiet };
                }
                if is_button(self.btn_start, target) {
                    return MenuResponse {
                        trans: Transition::Switch(GameState::Init),
                        print_start: true,
                        ..quiet
                    };
                }
                let print_load = is_button(self.btn_load, target);
                let print_options = is_button(self.btn_opts, target);
                return MenuResponse { print_load, print_options, ..quiet };
            },
            MenuEvent::Other => {},
        }
        quiet
    }

    /// The buttons must be looked up while any of them is still unknown.
    pub fn needs_buttons(&self) -> (b: bool)
        ensures
            b == (self.btn_exit is None || self.btn_start is None || self.btn_load is None
                || self.btn_opts is None),
    {
        self.btn_exit.is_none() || self.btn_start.is_none() || self.btn_load.is_none()
            || self.btn_opts.is_none()
    }

    /// Stores the buttons found by name in the menu UI.
    pub fn update(
        &mut self,
        exit: Option<EntityKey>,
        load: Option<EntityKey>,
        opts: Option<EntityKey>,
        start: Option<EntityKey>,
    ) -> (t: Transition)
        ensures
            t == Transition::Stay,
            *final(self) == (MenuState {
                btn_exit: exit,
                btn_load: load,
                btn_opts: opts,
                btn_start: start,
                ..*old(self)
            }),
    {
        self.btn_exit = exit;
        self.btn_load = load;
        self.btn_opts = opts;
        self.btn_start = start;
        Transition::Stay
    }

    /// Forgets the menu UI when leaving the menu; returns its root, which
    /// the caller removes from the world.
    pub fn on_stop(&mut self) -> (root: Option<EntityKey>)
        ensures
            root == old(self).ui_root,
            *final(self) == MenuState::spec_default(),
    {
        let root = self.ui_root;
        self.ui_root = None;
        self.btn_exit = None;
        self.btn_load = None;
        self.btn_opts = None;
        self.btn_start = None;
        root
    }

    pub open spec fn spec_default() -> MenuState {
        MenuState { ui_root: None, btn_exit: None, btn_load: None, btn_opts: None, btn_start: None }
    }
}

/// Loading state: prepares the world, then hands over to the running game.
#[derive(Clone, Copy, Debug, PartialEq, Eq, Structural)]
pub struct InitState {
    pub finished: bool,
}

impl Default for InitState {
    fn default() -> (s: InitState)
        ensures
            !s.finished,
    {
        InitState { finished: false }
    }
}

impl InitState {
    /// Marks loading as done, once the world has been set up.
    pub fn on_start(&mut self)
        ensures
            final(self).finished,
    {
        self.finished = true;
    }

    /// Switches to the running game once loading is done.
    pub fn update(&self) -> (t: Transition)
        ensures
            t == (if self.finished { Transition::Switch(GameState::Running) } else { Transition::Stay }),
    {
        if self.finished {
            return Transition::Switch(GameState::Running);
        }
        Transition::Stay
    }
}

/// How often, in frames, the frames-per-second display is refreshed.
pub const FPS_REFRESH_FRAMES: u64 = 20;

/// The running game: the simulation can be paused.
#[derive(Clone, Copy, Debug, PartialEq, Eq, Structural)]
pub struct RunningState {
    pub paused: bool,
}

impl Default for RunningState {
    fn default() -> (s: RunningState)
        ensures
            !s.paused,
    {
        RunningState { paused: false }
    }
}

impl RunningState {
    /// Closing the window or escape quits; space toggles the pause.
    /// Events that are not window events change nothing.
    pub fn handle_event(&mut self, event: Option<KeyInput>) -> (t: Transition)
        ensures
            match event {
                Some(k) => if k.spec_wants_quit() {
                    t == Transition::Quit && *final(self) == *old(self)
                } else {
                    t == Transition::Stay && final(self).paused == (old(self).paused != k.space_down)
                },
                None => t == Transition::Stay && *final(self) == *old(self),
            },
    {
        if let Some(k) = event {
            if k.wants_quit() {
                return Transition::Quit;
            }
            if k.space_down {
                self.paused = !self.paused;
            }
        }
        Transition::Stay
    }

    /// The simulation systems run only while the game is not paused; input
    /// and UI systems always run.
    pub fn runs_simulation(&self) -> (b: bool)
        ensures
            b == !self.paused,
    {
        !self.paused
    }

    /// The frames-per-second display is refreshed every twentieth frame.
    pub fn fps_due(frame_number: u64) -> (b: bool)
        ensures
            b == (frame_number % FPS_REFRESH_FRAMES == 0),
    {
        frame_number % FPS_REFRESH_FRAMES == 0
    }
}

/// A window event quits exactly when the window was asked to close or
/// escape is down: any other event (a mouse move, another key, space) keeps
/// the game or the menu where it is.
pub proof fn lemma_quit_only_on_close_or_escape(k: KeyInput)
    ensures
        k.close_requested ==> k.spec_wants_quit(),
        k.escape_down ==> k.spec_wants_quit(),
        !k.close_requested && !k.escape_down ==> !k.spec_wants_quit(),
{
}

/// Pausing twice resumes: two space presses leave the game as it was.
pub proof fn lemma_pause_toggle_twice(paused: bool, k: KeyInput)
    requires
        !k.spec_wants_quit(),
    ensures
        ((paused != k.space_down) != k.space_down) == paused,
{
}

} // verus!

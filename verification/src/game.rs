//! The game's state flow: a main menu, a loading screen, and the running
//! game, with the transitions between them.
//!
//! Each state's handler is a function from the frame's observations (window
//! signals, UI clicks, asset-load progress) to a transition and, for the
//! loading state, an action for the caller to carry out. The engine-facing
//! shell feeds the observations in and performs the transitions and actions.

use vstd::prelude::*;

verus! {

/// Where the flow goes after a frame.
#[derive(Clone, Copy, Debug, PartialEq, Eq, Structural)]
pub enum Transition {
    /// Shut the game down.
    Quit,
    /// Remain in the current state.
    Stay,
    /// Switch to the loading state.
    ToLoading,
    /// Switch to the running game.
    ToMain,
}

/// What a state handler observes in one frame.
pub enum GameStateEvent {
    /// A window signal.
    Window { close_requested: bool, escape_pressed: bool },
    /// A UI event aimed at a widget; `target_id` is the widget's transform
    /// id, where the widget has one.
    Ui { clicked: bool, target_id: Option<String> },
}

/// How far an asynchronous batch of asset loads has come.
#[derive(Clone, Copy, Debug, PartialEq, Eq, Structural)]
pub enum Completion {
    /// Some load failed.
    Failed,
    /// Every load finished.
    Complete,
    /// Loads are still under way.
    InProgress,
}

/// What the loading state asks its caller to do after a frame.
#[derive(Clone, Copy, Debug, PartialEq, Eq, Structural)]
pub enum LoadingAction {
    /// Nothing; wait for the next frame.
    Wait,
    /// Kick off the follow-up load of the map mesh.
    StartKludgeLoad,
    /// Loading is over: take the loading screen down.
    FinishAndClearUi,
}

/// The transition the main menu takes on `event`: quit when the window
/// closes or escape is pressed, quit on a click on the exit button, start
/// loading on a click on the start button, and otherwise stay.
pub open spec fn main_menu_transition(event: GameStateEvent) -> Transition {
    match event {
        GameStateEvent::Window { close_requested, escape_pressed } => if close_requested
            || escape_pressed {
            Transition::Quit
        } else {
            Transition::Stay
        },
        GameStateEvent::Ui { clicked, target_id } => if clicked && (target_id matches Some(id)
            && id@ == "exit_game_button"@) {
            Transition::Quit
        } else if clicked && (target_id matches Some(id) && id@ == "start_game_button"@) {
            Transition::ToLoading
        } else {
            Transition::Stay
        },
    }
}

/// The transition the running game takes on `event`: quit when the window
/// closes or escape is pressed, otherwise stay.
pub open spec fn main_transition(event: GameStateEvent) -> Transition {
    match event {
        GameStateEvent::Window { close_requested, escape_pressed } => if close_requested
            || escape_pressed {
            Transition::Quit
        } else {
            Transition::Stay
        },
        GameStateEvent::Ui { .. } => Transition::Stay,
    }
}

/// One frame of the loading state, as a function of whether the follow-up
/// map-mesh load has been kicked off and of the two load batches' progress.
/// The result is the new kicked-off flag, the transition, and the action
/// asked of the caller. Until the main batch completes, only it is
/// consulted; from the frame after the follow-up load starts, only that
/// load is.
pub open spec fn loading_step(
    kludge_started: bool,
    main_progress: Completion,
    kludge_progress: Completion,
) -> (bool, Transition, LoadingAction) {
    if !kludge_started {
        match main_progress {
            Completion::Failed => (false, Transition::Quit, LoadingAction::Wait),
            Completion::Complete => (true, Transition::Stay, LoadingAction::StartKludgeLoad),
            Completion::InProgress => (false, Transition::Stay, LoadingAction::Wait),
        }
    } else {
        match kludge_progress {
            Completion::Failed => (true, Transition::Quit, LoadingAction::Wait),
            Completion::Complete => (true, Transition::ToMain, LoadingAction::FinishAndClearUi),
            Completion::InProgress => (true, Transition::Stay, LoadingAction::Wait),
        }
    }
}

/// The main-menu state.
pub struct MainMenu;

impl MainMenu {
    /// React to one frame's event.
    pub fn handle_event(&self, event: &GameStateEvent) -> (t: Transition)
        ensures
            t == main_menu_transition(*event),
    {
        match event {
            GameStateEvent::Window { close_requested, escape_pressed } => {
                if *close_requested || *escape_pressed {
                    Transition::Quit
                } else {
                    Transition::Stay
                }
            },
            GameStateEvent::Ui { clicked, target_id } => {
                if *clicked {
                    match target_id {
                        Option::Some(id) => {
                            if *id == String::from_str("exit_game_button") {
                                Transition::Quit
                            } else if *id == String::from_str("start_game_button") {
                                Transition::ToLoading
                            } else {
                                Transition::Stay
                            }
                        },
                        Option::None => Transition::Stay,
                    }
                } else {
                    Transition::Stay
                }
            },
        }
    }
}

/// The loading state: the main asset batch is under way; once it completes,
/// a follow-up load builds the map mesh from the sprite grid.
pub struct Loading {
    /// Whether the follow-up map-mesh load has been kicked off.
    pub kludge_started: bool,
}

impl Default for Loading {
    /// Start out with the follow-up load not yet kicked off.
    fn default() -> (out: Loading)
        ensures
            !out.kludge_started,
    {
        Loading { kludge_started: false }
    }
}

impl Loading {
    /// One frame of the loading state. `main_progress` reports the main
    /// asset batch; `kludge_progress` reports the follow-up map-mesh load
    /// and is consulted only from the frame after that load was kicked off.
    pub fn update(&mut self, main_progress: Completion, kludge_progress: Completion) -> (out: (
        Transition,
        LoadingAction,
    ))
        ensures
            (final(self).kludge_started, out.0, out.1) == loading_step(
                old(self).kludge_started,
                main_progress,
                kludge_progress,
            ),
    {
        if !self.kludge_started {
            match main_progress {
                Completion::Failed => (Transition::Quit, LoadingAction::Wait),
                Completion::Complete => {
                    self.kludge_started = true;
                    (Transition::Stay, LoadingAction::StartKludgeLoad)
                },
                Completion::InProgress => (Transition::Stay, LoadingAction::Wait),
            }
        } else {
            match kludge_progress {
                Completion::Failed => (Transition::Quit, LoadingAction::Wait),
                Completion::Complete => (Transition::ToMain, LoadingAction::FinishAndClearUi),
                Completion::InProgress => (Transition::Stay, LoadingAction::Wait),
            }
        }
    }
}

/// The running game.
pub struct Main;

impl Main {
    /// React to one frame's event.
    pub fn handle_event(&self, event: &GameStateEvent) -> (t: Transition)
        ensures
            t == main_transition(*event),
    {
        match event {
            GameStateEvent::Window { close_requested, escape_pressed } => {
                if *close_requested || *escape_pressed {
                    Transition::Quit
                } else {
                    Transition::Stay
                }
            },
            GameStateEvent::Ui { .. } => Transition::Stay,
        }
    }
}

/// One row of four sprite indices.
fn map_row(a: usize, b: usize, c: usize, d: usize) -> (row: Vec<usize>)
    ensures
        row@ == seq![a, b, c, d],
{
    let mut row: Vec<usize> = Vec::new();
    row.push(a);
    row.push(b);
    row.push(c);
    row.push(d);
    proof {
        assert(row@ =~= seq![a, b, c, d]);
    }
    row
}

/// The map the loading state's follow-up mesh lays out: a four-by-four
/// grid of sprite indices into the basic map sheet.
pub fn default_map_grid() -> (grid: Vec<Vec<usize>>)
    ensures
        grid@.len() == 4,
        grid@[0]@ == seq![1usize, 1, 1, 1],
        grid@[1]@ == seq![1usize, 2, 1, 1],
        grid@[2]@ == seq![1usize, 1, 3, 3],
        grid@[3]@ == seq![3usize, 3, 4, 3],
{
    let mut grid: Vec<Vec<usize>> = Vec::new();
    grid.push(map_row(1, 1, 1, 1));
    grid.push(map_row(1, 2, 1, 1));
    grid.push(map_row(1, 1, 3, 3));
    grid.push(map_row(3, 3, 4, 3));
    grid
}

/// The transform ids of the main menu's widgets, for taking the menu down
/// when the game moves on.
pub fn main_menu_ui_ids() -> (ids: Vec<String>)
    ensures
        ids@.len() == 4,
        ids@[0]@ == "main_menu_background"@,
        ids@[1]@ == "main_menu_game_title"@,
        ids@[2]@ == "start_game_button"@,
        ids@[3]@ == "exit_game_button"@,
{
    let mut ids: Vec<String> = Vec::new();
    ids.push(String::from_str("main_menu_background"));
    ids.push(String::from_str("main_menu_game_title"));
    ids.push(String::from_str("start_game_button"));
    ids.push(String::from_str("exit_game_button"));
    ids
}

} // verus!

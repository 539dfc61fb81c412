//! The game's state flow, frame by frame.

use tank_demo::game::{
    Completion, GameStateEvent, Loading, LoadingAction, Main, MainMenu, Transition,
    default_map_grid, main_menu_ui_ids,
};

fn window_event(close_requested: bool, escape_pressed: bool) -> GameStateEvent {
    GameStateEvent::Window { close_requested, escape_pressed }
}

fn click(target_id: Option<&str>) -> GameStateEvent {
    GameStateEvent::Ui { clicked: true, target_id: target_id.map(|s| s.to_string()) }
}

#[test]
fn main_menu_quits_when_window_closes() {
    let menu = MainMenu;
    assert_eq!(menu.handle_event(&window_event(true, false)), Transition::Quit);
}

#[test]
fn main_menu_quits_on_escape() {
    let menu = MainMenu;
    assert_eq!(menu.handle_event(&window_event(false, true)), Transition::Quit);
}

#[test]
fn main_menu_stays_on_quiet_window() {
    let menu = MainMenu;
    assert_eq!(menu.handle_event(&window_event(false, false)), Transition::Stay);
}

#[test]
fn main_menu_quits_on_exit_button() {
    let menu = MainMenu;
    assert_eq!(menu.handle_event(&click(Some("exit_game_button"))), Transition::Quit);
}

#[test]
fn main_menu_starts_loading_on_start_button() {
    let menu = MainMenu;
    assert_eq!(menu.handle_event(&click(Some("start_game_button"))), Transition::ToLoading);
}

#[test]
fn main_menu_ignores_other_widgets() {
    let menu = MainMenu;
    assert_eq!(menu.handle_event(&click(Some("main_menu_game_title"))), Transition::Stay);
    assert_eq!(menu.handle_event(&click(None)), Transition::Stay);
}

#[test]
fn main_menu_ignores_unclicked_ui_events() {
    let menu = MainMenu;
    let hover = GameStateEvent::Ui {
        clicked: false,
        target_id: Some("exit_game_button".to_string()),
    };
    assert_eq!(menu.handle_event(&hover), Transition::Stay);
}

#[test]
fn loading_waits_while_assets_stream_in() {
    let mut loading = Loading::default();
    let (t, a) = loading.update(Completion::InProgress, Completion::InProgress);
    assert_eq!(t, Transition::Stay);
    assert_eq!(a, LoadingAction::Wait);
    assert!(!loading.kludge_started);
}

#[test]
fn loading_quits_when_the_main_batch_fails() {
    let mut loading = Loading::default();
    let (t, a) = loading.update(Completion::Failed, Completion::InProgress);
    assert_eq!(t, Transition::Quit);
    assert_eq!(a, LoadingAction::Wait);
}

#[test]
fn loading_kicks_off_the_map_mesh_after_the_main_batch() {
    let mut loading = Loading::default();
    let (t, a) = loading.update(Completion::Complete, Completion::InProgress);
    assert_eq!(t, Transition::Stay);
    assert_eq!(a, LoadingAction::StartKludgeLoad);
    assert!(loading.kludge_started);
}

#[test]
fn loading_finishes_once_the_map_mesh_is_in() {
    let mut loading = Loading::default();
    loading.update(Completion::Complete, Completion::InProgress);
    let (t, a) = loading.update(Completion::Complete, Completion::InProgress);
    assert_eq!(t, Transition::Stay);
    assert_eq!(a, LoadingAction::Wait);
    let (t, a) = loading.update(Completion::Complete, Completion::Complete);
    assert_eq!(t, Transition::ToMain);
    assert_eq!(a, LoadingAction::FinishAndClearUi);
}

#[test]
fn loading_quits_when_the_map_mesh_fails() {
    let mut loading = Loading::default();
    loading.update(Completion::Complete, Completion::InProgress);
    let (t, a) = loading.update(Completion::Failed, Completion::Failed);
    assert_eq!(t, Transition::Quit);
    assert_eq!(a, LoadingAction::Wait);
}

#[test]
fn running_game_quits_only_on_window_signals() {
    let main = Main;
    assert_eq!(main.handle_event(&window_event(true, false)), Transition::Quit);
    assert_eq!(main.handle_event(&window_event(false, true)), Transition::Quit);
    assert_eq!(main.handle_event(&window_event(false, false)), Transition::Stay);
    assert_eq!(main.handle_event(&click(Some("exit_game_button"))), Transition::Stay);
}

#[test]
fn menu_widget_ids_are_the_four_known_ones() {
    let ids = main_menu_ui_ids();
    assert_eq!(
        ids,
        vec![
            "main_menu_background".to_string(),
            "main_menu_game_title".to_string(),
            "start_game_button".to_string(),
            "exit_game_button".to_string(),
        ]
    );
}

#[test]
fn the_default_map_grid_is_the_known_four_by_four() {
    let grid = default_map_grid();
    assert_eq!(
        grid,
        vec![vec![1, 1, 1, 1], vec![1, 2, 1, 1], vec![1, 1, 3, 3], vec![3, 3, 4, 3]]
    );
}

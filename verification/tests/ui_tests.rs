//! The FPS read-out: widget caching and the refresh cadence.

use tank_demo::scene::Scene;
use tank_demo::systems::debug::DebugSystem;
use tank_demo::systems::ui::{UISystem, frame_is_fps_refresh};

#[test]
fn the_readout_refreshes_every_twentieth_frame() {
    assert!(frame_is_fps_refresh(0));
    assert!(!frame_is_fps_refresh(1));
    assert!(!frame_is_fps_refresh(19));
    assert!(frame_is_fps_refresh(20));
    assert!(frame_is_fps_refresh(40));
    assert!(!frame_is_fps_refresh(41));
}

#[test]
fn the_widget_is_cached_once_found() {
    let mut ui = UISystem::default();
    assert_eq!(ui.fps_display, None);
    assert!(!ui.run(None, true, 0));
    assert_eq!(ui.fps_display, None);
    assert!(ui.run(Some(7), true, 0));
    assert_eq!(ui.fps_display, Some(7));
    // A later find does not displace the cached widget.
    ui.run(Some(9), true, 20);
    assert_eq!(ui.fps_display, Some(7));
}

#[test]
fn no_refresh_between_cadence_frames_or_without_text() {
    let mut ui = UISystem::default();
    assert!(ui.run(Some(3), true, 40));
    assert!(!ui.run(None, true, 41));
    assert!(!ui.run(None, false, 60));
}

#[test]
fn the_debug_pass_changes_nothing() {
    let scene = Scene { names: vec![], parents: vec![], materials: vec![], replacements: vec![] };
    DebugSystem.run(&scene);
}

use voxel_engine::game::{
    recover_from, EngineAction, EngineEvent, FrameRecovery, KeyInput, MoveDirection, SurfaceIssue,
    WindowGame,
};
use voxel_engine::surface::SurfaceConfig;
use voxel_engine::timestep::TICK_PERIOD_NANOS;

#[test]
fn close_request_exits() {
    let mut g = WindowGame::new();
    assert_eq!(g.handle_window_event(EngineEvent::CloseRequested), EngineAction::Exit);
}

#[test]
fn escape_exits() {
    let mut g = WindowGame::new();
    let a = g.handle_window_event(EngineEvent::Keyboard { key: KeyInput::Escape });
    assert_eq!(a, EngineAction::Exit);
}

#[test]
fn movement_keys_map_to_unit_directions() {
    let mut g = WindowGame::new();
    let cases = [
        (KeyInput::KeyW, MoveDirection { x: 0, y: 0, z: -1 }),
        (KeyInput::KeyS, MoveDirection { x: 0, y: 0, z: 1 }),
        (KeyInput::KeyA, MoveDirection { x: -1, y: 0, z: 0 }),
        (KeyInput::KeyD, MoveDirection { x: 1, y: 0, z: 0 }),
        (KeyInput::KeyQ, MoveDirection { x: 0, y: -1, z: 0 }),
        (KeyInput::KeyE, MoveDirection { x: 0, y: 1, z: 0 }),
    ];
    for (key, direction) in cases {
        let a = g.handle_window_event(EngineEvent::Keyboard { key });
        assert_eq!(a, EngineAction::MoveCamera { direction });
    }
}

#[test]
fn unrecognised_keys_are_ignored() {
    let mut g = WindowGame::new();
    let a = g.handle_window_event(EngineEvent::Keyboard { key: KeyInput::Other });
    assert_eq!(a, EngineAction::Ignore);
}

#[test]
fn nothing_gpu_bound_happens_before_the_device_exists() {
    let mut g = WindowGame::new();
    assert_eq!(
        g.handle_window_event(EngineEvent::Resized { width: 10, height: 10 }),
        EngineAction::Ignore
    );
    assert_eq!(g.handle_window_event(EngineEvent::MouseButton), EngineAction::Ignore);
    assert_eq!(
        g.handle_window_event(EngineEvent::RedrawRequested { elapsed_nanos: TICK_PERIOD_NANOS }),
        EngineAction::Ignore
    );
    assert_eq!(g.timestep.ticks, 0);
}

#[test]
fn resize_is_forwarded_once_ready() {
    let mut g = WindowGame::new();
    g.set_ready(true);
    let a = g.handle_window_event(EngineEvent::Resized { width: 800, height: 600 });
    assert_eq!(a, EngineAction::ResizeSurface { width: 800, height: 600 });
}

#[test]
fn a_click_captures_and_focus_loss_releases_the_cursor() {
    let mut g = WindowGame::new();
    g.set_ready(true);
    assert_eq!(g.handle_window_event(EngineEvent::MouseButton), EngineAction::CaptureCursor);
    assert_eq!(
        g.handle_window_event(EngineEvent::Focused { focused: false }),
        EngineAction::ReleaseCursor
    );
    assert_eq!(
        g.handle_window_event(EngineEvent::Focused { focused: true }),
        EngineAction::Ignore
    );
}

#[test]
fn a_redraw_renders_once_and_runs_the_due_ticks() {
    let mut g = WindowGame::new();
    g.set_ready(true);
    let a = g.handle_window_event(EngineEvent::RedrawRequested {
        elapsed_nanos: 2 * TICK_PERIOD_NANOS + 5,
    });
    assert_eq!(a, EngineAction::RenderFrame { ticks: 2 });
    assert_eq!(g.timestep.ticks, 2);
    assert_eq!(g.timestep.accumulator_nanos, 5);
}

#[test]
fn mouse_motion_turns_only_the_camera() {
    let mut g = WindowGame::new();
    g.set_ready(true);
    g.on_mouse_motion(90, 0);
    assert_eq!(g.camera.yaw, 3510);
    assert_eq!(g.camera.pitch, 0);
    assert_eq!(g.timestep.ticks, 0);
    assert!(g.ready);
}

#[test]
fn surface_issues_map_to_their_recoveries() {
    assert_eq!(recover_from(SurfaceIssue::Lost), FrameRecovery::Reconfigure);
    assert_eq!(recover_from(SurfaceIssue::OutOfMemory), FrameRecovery::Exit);
    assert_eq!(recover_from(SurfaceIssue::Timeout), FrameRecovery::SkipFrame);
    assert_eq!(recover_from(SurfaceIssue::Outdated), FrameRecovery::SkipFrame);
}

#[test]
fn resize_with_a_zero_dimension_is_a_no_op() {
    let mut c = SurfaceConfig::new(1920, 1080);
    let before = c;
    assert!(!c.resize(0, 500));
    assert_eq!(c, before);
    assert!(!c.resize(500, 0));
    assert_eq!(c, before);
    assert!(!c.resize(0, 0));
    assert_eq!(c, before);
}

#[test]
fn resize_with_both_dimensions_updates_the_config() {
    let mut c = SurfaceConfig::new(1920, 1080);
    assert!(c.resize(800, 600));
    assert_eq!(c, SurfaceConfig::new(800, 600));
}

use gridwave::scene::{
    recovery_action, KeyPress, LoopAction, LoopEvent, RecoveryAction, Scene, SurfaceIssue,
};

#[test]
fn starts_with_default_window() {
    let s = Scene::new();
    assert_eq!(s.width, 800);
    assert_eq!(s.height, 600);
    assert_eq!(s.frame, 0);
}

#[test]
fn resize_updates_aspect_inputs() {
    let mut s = Scene::new();
    assert!(s.resize(1024, 768));
    assert_eq!(s.aspect(), (1024, 768));
}

#[test]
fn zero_sized_resize_is_a_no_op() {
    let mut s = Scene::new();
    assert!(!s.resize(0, 600));
    assert!(!s.resize(800, 0));
    assert!(!s.resize(0, 0));
    assert_eq!(s.aspect(), (800, 600));
    let a = s.handle_event(LoopEvent::Resized { width: 0, height: 123 });
    assert_eq!(a, LoopAction::Continue);
    assert_eq!(s.aspect(), (800, 600));
}

#[test]
fn aspect_is_fresh_in_the_same_frame() {
    // A resize processed earlier in the frame is what the redraw's
    // projection sees: never a stale width or height.
    let mut s = Scene::new();
    let a = s.handle_event(LoopEvent::Resized { width: 333, height: 222 });
    assert_eq!(a, LoopAction::Reconfigure);
    let b = s.handle_event(LoopEvent::RedrawRequested);
    assert_eq!(b, LoopAction::Render);
    assert_eq!(s.aspect(), (333, 222));
    assert_eq!(s.frame, 1);
}

#[test]
fn redraw_advances_the_fixed_step_clock() {
    let mut s = Scene::new();
    for _ in 0..120 {
        assert_eq!(s.handle_event(LoopEvent::RedrawRequested), LoopAction::Render);
    }
    // 120 ticks of 1/60 s: two seconds of animation time.
    assert_eq!(s.frame, 120);
}

#[test]
fn escape_and_close_request_exit() {
    let mut s = Scene::new();
    let a = s.handle_event(LoopEvent::KeyPressed { key: KeyPress::Escape, sin_e5: 0, cos_e5: 0 });
    assert_eq!(a, LoopAction::Exit);
    assert_eq!(s.handle_event(LoopEvent::CloseRequested), LoopAction::Exit);
    assert_eq!(s.frame, 0);
    assert_eq!(s.aspect(), (800, 600));
}

#[test]
fn unrecognized_keys_change_nothing() {
    let mut s = Scene::new();
    let before = s.camera;
    let a = s.handle_event(LoopEvent::KeyPressed { key: KeyPress::Other, sin_e5: 0, cos_e5: 0 });
    assert_eq!(a, LoopAction::Continue);
    assert_eq!(s.camera, before);
}

#[test]
fn movement_keys_reach_the_camera() {
    let mut s = Scene::new();
    let a = s.handle_event(LoopEvent::KeyPressed {
        key: KeyPress::Forward,
        sin_e5: 0,
        cos_e5: 100_000,
    });
    assert_eq!(a, LoopAction::Continue);
    assert_eq!(s.camera.z_micro, -4_900_000);
    s.handle_event(LoopEvent::KeyPressed { key: KeyPress::Up, sin_e5: 0, cos_e5: 100_000 });
    assert_eq!(s.camera.y_micro, 600_000);
}

#[test]
fn surface_error_policy() {
    assert_eq!(recovery_action(SurfaceIssue::Lost), RecoveryAction::Reconfigure);
    assert_eq!(recovery_action(SurfaceIssue::OutOfMemory), RecoveryAction::Exit);
    assert_eq!(recovery_action(SurfaceIssue::Timeout), RecoveryAction::SkipFrame);
    assert_eq!(recovery_action(SurfaceIssue::Outdated), RecoveryAction::SkipFrame);
}

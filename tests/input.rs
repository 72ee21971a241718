use wgpu_scene::input::{CameraController, Key, Motion};

#[test]
fn new_controller_holds_nothing() {
    let mut c: CameraController<f32> = CameraController::new(0.5, 2.0);
    assert_eq!(c.move_speed, 0.5);
    assert_eq!(c.look_speed, 2.0);
    let step = c.take_frame_step();
    assert!(step.moves.is_empty());
    assert!(step.look.is_none());
}

#[test]
fn bound_keys_are_consumed() {
    let mut c: CameraController<f32> = CameraController::new(1.0, 1.0);
    assert!(c.process_key(Key::W, true));
    assert!(c.process_key(Key::Left, true));
    assert!(!c.process_key(Key::Other, true));
    assert!(c.is_forward_pressed);
    assert!(c.is_left_pressed);
    assert!(!c.is_right_pressed);
    let step = c.take_frame_step();
    assert_eq!(step.moves, vec![Motion::Forward, Motion::Left]);
}

#[test]
fn arrow_keys_share_bindings() {
    let mut c: CameraController<f32> = CameraController::new(1.0, 1.0);
    assert!(c.process_key(Key::Up, true));
    assert!(c.process_key(Key::Down, true));
    assert!(c.process_key(Key::Right, true));
    assert!(c.process_key(Key::LShift, true));
    let step = c.take_frame_step();
    assert_eq!(
        step.moves,
        vec![Motion::Forward, Motion::Backward, Motion::Right, Motion::Down]
    );
}

#[test]
fn release_stops_motion() {
    let mut c: CameraController<f32> = CameraController::new(1.0, 1.0);
    c.process_key(Key::S, true);
    c.process_key(Key::S, false);
    assert!(!c.is_backward_pressed);
    assert!(c.take_frame_step().moves.is_empty());
}

#[test]
fn held_keys_persist_across_frames() {
    let mut c: CameraController<f32> = CameraController::new(1.0, 1.0);
    c.process_key(Key::D, true);
    assert_eq!(c.take_frame_step().moves, vec![Motion::Right]);
    assert_eq!(c.take_frame_step().moves, vec![Motion::Right]);
}

#[test]
fn forward_and_up_move_along_both() {
    let mut c: CameraController<f32> = CameraController::new(1.0, 1.0);
    c.process_key(Key::W, true);
    c.process_key(Key::Space, true);
    let step = c.take_frame_step();
    assert_eq!(step.moves, vec![Motion::Forward, Motion::Up]);
}

#[test]
fn last_pointer_motion_wins() {
    let mut c: CameraController<f32> = CameraController::new(1.0, 1.0);
    c.process_look((0.25, -0.5));
    c.process_look((-1.0, 0.75));
    let step = c.take_frame_step();
    assert_eq!(step.look, Some((-1.0, 0.75)));
    assert!(c.cursor_move.is_none());
    assert!(c.take_frame_step().look.is_none());
}

#[test]
fn all_six_motions_in_order() {
    let mut c: CameraController<i32> = CameraController::new(1, 1);
    for k in [Key::Space, Key::LShift, Key::A, Key::D, Key::S, Key::W] {
        assert!(c.process_key(k, true));
    }
    assert_eq!(
        c.take_frame_step().moves,
        vec![
            Motion::Forward,
            Motion::Backward,
            Motion::Right,
            Motion::Left,
            Motion::Down,
            Motion::Up
        ]
    );
}

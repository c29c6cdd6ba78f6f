use camera_scene::camera::{CameraController, MoveInput};
use camera_scene::input::{Direction, Key};
use camera_scene::orbit::OrbitController;

const ALL: [Direction; 6] = [
    Direction::Forward,
    Direction::Backward,
    Direction::Left,
    Direction::Right,
    Direction::Up,
    Direction::Down,
];

fn held(c: &CameraController) -> Vec<Direction> {
    ALL.iter().copied().filter(|d| c.is_held(*d)).collect()
}

fn pressed(c: &OrbitController) -> Vec<Direction> {
    ALL.iter().copied().filter(|d| c.is_pressed(*d)).collect()
}

#[test]
fn free_look_starts_idle() {
    let c = CameraController::new();
    assert!(held(&c).is_empty());
    assert_eq!(c.movement_input(), MoveInput { forward: 0, right: 0, up: 0 });
}

#[test]
fn free_look_keys_map_to_directions() {
    let cases = [
        (Key::W, Direction::Forward),
        (Key::A, Direction::Left),
        (Key::S, Direction::Backward),
        (Key::D, Direction::Right),
        (Key::Space, Direction::Up),
        (Key::ShiftLeft, Direction::Down),
    ];
    for (key, dir) in cases {
        let mut c = CameraController::new();
        assert!(c.handle_key(key, true));
        assert_eq!(held(&c), vec![dir]);
        assert!(c.handle_key(key, false));
        assert!(held(&c).is_empty());
    }
}

#[test]
fn free_look_ignores_other_keys() {
    for key in [
        Key::ArrowUp,
        Key::ArrowDown,
        Key::ArrowLeft,
        Key::ArrowRight,
        Key::Escape,
        Key::Other,
    ] {
        let mut c = CameraController::new();
        c.handle_key(Key::W, true);
        assert!(!c.handle_key(key, true));
        assert_eq!(held(&c), vec![Direction::Forward]);
    }
}

#[test]
fn free_look_movement_input() {
    let mut c = CameraController::new();
    c.handle_key(Key::W, true);
    c.handle_key(Key::A, true);
    c.handle_key(Key::ShiftLeft, true);
    assert_eq!(c.movement_input(), MoveInput { forward: 1, right: -1, up: -1 });
    c.handle_key(Key::S, true);
    c.handle_key(Key::D, true);
    c.handle_key(Key::Space, true);
    assert_eq!(c.movement_input(), MoveInput { forward: 0, right: 0, up: 0 });
    c.handle_key(Key::W, false);
    c.handle_key(Key::A, false);
    c.handle_key(Key::ShiftLeft, false);
    assert_eq!(c.movement_input(), MoveInput { forward: -1, right: 1, up: 1 });
}

#[test]
fn key_event_repeated_changes_nothing_more() {
    let mut once = CameraController::new();
    once.handle_key(Key::D, true);
    let mut twice = CameraController::new();
    twice.handle_key(Key::D, true);
    twice.handle_key(Key::D, true);
    assert_eq!(held(&once), held(&twice));
}

#[test]
fn last_key_event_wins() {
    let mut c = CameraController::new();
    c.handle_key(Key::Space, false);
    c.handle_key(Key::Space, true);
    assert_eq!(held(&c), vec![Direction::Up]);
    c.handle_key(Key::Space, false);
    assert!(held(&c).is_empty());
}

#[test]
fn release_undoes_press_and_keeps_others() {
    let mut c = CameraController::new();
    c.handle_key(Key::A, true);
    let before = held(&c);
    c.handle_key(Key::S, true);
    c.handle_key(Key::S, false);
    assert_eq!(held(&c), before);
}

#[test]
fn orbit_keys_and_arrows() {
    let cases = [
        (Key::W, Direction::Forward),
        (Key::ArrowUp, Direction::Forward),
        (Key::A, Direction::Left),
        (Key::ArrowLeft, Direction::Left),
        (Key::S, Direction::Backward),
        (Key::ArrowDown, Direction::Backward),
        (Key::D, Direction::Right),
        (Key::ArrowRight, Direction::Right),
    ];
    for (key, dir) in cases {
        let mut c = OrbitController::new();
        assert!(c.handle_key(key, true));
        assert_eq!(pressed(&c), vec![dir]);
        assert!(c.handle_key(key, false));
        assert!(pressed(&c).is_empty());
    }
}

#[test]
fn orbit_ignores_vertical_and_other_keys() {
    for key in [Key::Space, Key::ShiftLeft, Key::Escape, Key::Other] {
        let mut c = OrbitController::new();
        assert!(!c.handle_key(key, true));
        assert!(pressed(&c).is_empty());
        assert!(!c.is_pressed(Direction::Up));
        assert!(!c.is_pressed(Direction::Down));
    }
}

#[test]
fn orbit_arrow_and_letter_share_a_direction() {
    let mut c = OrbitController::new();
    c.handle_key(Key::W, true);
    c.handle_key(Key::ArrowUp, false);
    assert!(!c.is_pressed(Direction::Forward));
}

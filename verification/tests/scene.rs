use wgpu::TextureFormat;
use camera_scene::events::{EventAction, Scene, WindowInput};
use camera_scene::input::{Direction, Key};
use camera_scene::surface::{
    choose_surface_format, first_srgb_index, frame_action, FrameAction, SurfaceState,
    SurfaceStatus,
};

#[test]
fn new_surface_is_not_configured() {
    let s = SurfaceState::new(800, 600);
    assert_eq!((s.width(), s.height(), s.is_configured()), (800, 600, false));
}

#[test]
fn resize_with_zero_side_is_ignored() {
    let mut s = SurfaceState::new(800, 600);
    assert!(!s.resize(0, 300));
    assert!(!s.resize(300, 0));
    assert!(!s.resize(0, 0));
    assert_eq!((s.width(), s.height(), s.is_configured()), (800, 600, false));
}

#[test]
fn resize_configures() {
    let mut s = SurfaceState::new(0, 0);
    assert!(s.resize(1024, 768));
    assert_eq!((s.width(), s.height(), s.is_configured()), (1024, 768, true));
    assert!(!s.resize(0, 10));
    assert_eq!((s.width(), s.height(), s.is_configured()), (1024, 768, true));
}

#[test]
fn frame_actions() {
    assert_eq!(frame_action(SurfaceStatus::Success), FrameAction::Draw { reconfigure: false });
    assert_eq!(frame_action(SurfaceStatus::Suboptimal), FrameAction::Draw { reconfigure: true });
    assert_eq!(frame_action(SurfaceStatus::Timeout), FrameAction::Skip { reconfigure: false });
    assert_eq!(frame_action(SurfaceStatus::Occluded), FrameAction::Skip { reconfigure: false });
    assert_eq!(frame_action(SurfaceStatus::Validation), FrameAction::Skip { reconfigure: false });
    assert_eq!(frame_action(SurfaceStatus::Outdated), FrameAction::Skip { reconfigure: true });
    assert_eq!(frame_action(SurfaceStatus::Lost), FrameAction::Fail);
}

#[test]
fn first_srgb_or_first() {
    assert_eq!(first_srgb_index(&vec![false, true, true]), 1);
    assert_eq!(first_srgb_index(&vec![true, false]), 0);
    assert_eq!(first_srgb_index(&vec![false, false, false]), 0);
}

#[test]
fn surface_format_prefers_srgb() {
    let formats = vec![
        TextureFormat::Rgba8Unorm,
        TextureFormat::Bgra8Unorm,
        TextureFormat::Bgra8UnormSrgb,
        TextureFormat::Rgba8UnormSrgb,
    ];
    assert_eq!(choose_surface_format(&formats), 2);
    let linear = vec![TextureFormat::Bgra8Unorm, TextureFormat::Rgba16Float];
    assert_eq!(choose_surface_format(&linear), 0);
    assert_eq!(choose_surface_format(&vec![TextureFormat::Rgba8UnormSrgb]), 0);
}

#[test]
fn scene_event_loop() {
    let mut s = Scene::new(0, 0);
    assert!(!s.surface.is_configured());
    assert_eq!(s.handle_event(WindowInput::RedrawRequested), EventAction::Redraw);
    assert_eq!(s.handle_event(WindowInput::Resized { width: 0, height: 480 }), EventAction::Nothing);
    assert!(!s.surface.is_configured());
    assert_eq!(
        s.handle_event(WindowInput::Resized { width: 640, height: 480 }),
        EventAction::Reconfigure
    );
    assert!(s.surface.is_configured());
    assert_eq!((s.surface.width(), s.surface.height()), (640, 480));
    assert_eq!(
        s.handle_event(WindowInput::Keyboard { key: Key::ArrowLeft, pressed: true }),
        EventAction::Nothing
    );
    assert!(s.controller.is_pressed(Direction::Left));
    assert_eq!(s.handle_event(WindowInput::Other), EventAction::Nothing);
    assert_eq!(s.handle_event(WindowInput::CloseRequested), EventAction::Exit);
    assert!(s.controller.is_pressed(Direction::Left));
    assert!(s.surface.is_configured());
}

#[test]
fn escape_press_exits_without_touching_keys() {
    let mut s = Scene::new(10, 10);
    s.handle_event(WindowInput::Keyboard { key: Key::W, pressed: true });
    assert_eq!(
        s.handle_event(WindowInput::Keyboard { key: Key::Escape, pressed: true }),
        EventAction::Exit
    );
    assert!(s.controller.is_pressed(Direction::Forward));
    assert_eq!(
        s.handle_event(WindowInput::Keyboard { key: Key::Escape, pressed: false }),
        EventAction::Nothing
    );
    assert!(s.controller.is_pressed(Direction::Forward));
}

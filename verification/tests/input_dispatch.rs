use vxrt::controller::{CameraIntents, KeyCode};
use vxrt::renderer::{EventDirective, InputEvent, MouseButtonKind, Renderer};
use vxrt::targets::SurfaceTargets;

fn renderer() -> Renderer {
    let mut t = SurfaceTargets::new(4);
    t.configure(800, 600);
    Renderer::new(t, 100)
}

#[test]
fn directional_keys_set_their_intent() {
    let mut c = CameraIntents::new();
    assert!(c.process_keyboard(KeyCode::KeyW, true));
    assert!(c.forward);
    assert!(c.process_keyboard(KeyCode::KeyS, true));
    assert!(c.backward);
    assert!(c.process_keyboard(KeyCode::KeyA, true));
    assert!(c.left);
    assert!(c.process_keyboard(KeyCode::KeyD, true));
    assert!(c.right);
    assert!(c.process_keyboard(KeyCode::Space, true));
    assert!(c.up);
    assert!(c.process_keyboard(KeyCode::LeftShift, true));
    assert!(c.down);
}

#[test]
fn arrow_keys_share_the_wasd_intents() {
    let mut c = CameraIntents::new();
    assert!(c.process_keyboard(KeyCode::ArrowUp, true));
    assert!(c.forward);
    assert!(c.process_keyboard(KeyCode::ArrowDown, true));
    assert!(c.backward);
    assert!(c.process_keyboard(KeyCode::ArrowLeft, true));
    assert!(c.left);
    assert!(c.process_keyboard(KeyCode::ArrowRight, true));
    assert!(c.right);
}

#[test]
fn unrecognized_keys_change_nothing() {
    let mut c = CameraIntents::new();
    assert!(!c.process_keyboard(KeyCode::Escape, true));
    assert!(!c.process_keyboard(KeyCode::Other, true));
    assert_eq!(c, CameraIntents::new());
}

#[test]
fn directional_intent_stays_until_release() {
    let mut r = renderer();
    r.handle_window_event(InputEvent::Keyboard { key: KeyCode::KeyW, pressed: true });
    r.handle_window_event(InputEvent::MouseWheel);
    r.handle_window_event(InputEvent::MouseButton { button: MouseButtonKind::Left, pressed: true });
    assert!(r.intents.forward);
    r.handle_window_event(InputEvent::Keyboard { key: KeyCode::KeyW, pressed: false });
    assert!(!r.intents.forward);
}

#[test]
fn wheel_events_are_consumed() {
    let mut r = renderer();
    assert!(r.input(InputEvent::MouseWheel));
}

#[test]
fn left_button_toggles_drag_to_look() {
    let mut r = renderer();
    assert!(!r.mouse_pressed);
    assert!(r.input(InputEvent::MouseButton { button: MouseButtonKind::Left, pressed: true }));
    assert!(r.mouse_pressed);
    assert!(r.input(InputEvent::MouseButton { button: MouseButtonKind::Left, pressed: false }));
    assert!(!r.mouse_pressed);
}

#[test]
fn other_buttons_are_not_consumed() {
    let mut r = renderer();
    assert!(!r.input(InputEvent::MouseButton { button: MouseButtonKind::Other, pressed: true }));
    assert!(!r.mouse_pressed);
}

#[test]
fn close_request_exits() {
    let mut r = renderer();
    assert_eq!(r.handle_window_event(InputEvent::CloseRequested), EventDirective::Exit);
}

#[test]
fn pressed_escape_exits() {
    let mut r = renderer();
    assert_eq!(
        r.handle_window_event(InputEvent::Keyboard { key: KeyCode::Escape, pressed: true }),
        EventDirective::Exit
    );
}

#[test]
fn released_escape_does_not_exit() {
    let mut r = renderer();
    assert_eq!(
        r.handle_window_event(InputEvent::Keyboard { key: KeyCode::Escape, pressed: false }),
        EventDirective::NoAction
    );
}

#[test]
fn recognized_keys_do_not_exit() {
    let mut r = renderer();
    assert_eq!(
        r.handle_window_event(InputEvent::Keyboard { key: KeyCode::KeyW, pressed: true }),
        EventDirective::NoAction
    );
    assert!(r.intents.forward);
}

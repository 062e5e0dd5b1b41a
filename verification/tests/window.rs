use byd::context::{MountContext, UpdateContext};
use byd::event::{Event, Key, MouseButton};
use byd::window::{RawInput, WindowContext};

#[test]
fn a_key_goes_down_repeats_and_comes_up() {
    let mut window = WindowContext::new();
    assert_eq!(window.handle(RawInput::KeyPressed(Key::W)), vec![Event::KeyDown(Key::W)]);
    assert_eq!(window.held_keys(), &vec![Key::W]);
    assert_eq!(window.handle(RawInput::KeyPressed(Key::W)), vec![Event::KeyRepeat(Key::W)]);
    assert_eq!(window.handle(RawInput::KeyPressed(Key::A)), vec![Event::KeyDown(Key::A)]);
    assert_eq!(window.held_keys(), &vec![Key::W, Key::A]);
    assert_eq!(window.handle(RawInput::KeyReleased(Key::W)), vec![Event::KeyUp(Key::W)]);
    assert_eq!(window.held_keys(), &vec![Key::A]);
    assert_eq!(window.handle(RawInput::KeyPressed(Key::W)), vec![Event::KeyDown(Key::W)]);
    assert_eq!(window.held_keys(), &vec![Key::A, Key::W]);
}

#[test]
fn a_key_that_is_not_held_still_comes_up() {
    let mut window = WindowContext::new();
    assert_eq!(window.handle(RawInput::KeyReleased(Key::Space)), vec![Event::KeyUp(Key::Space)]);
    assert!(window.held_keys().is_empty());
}

#[test]
fn buttons_report_where_the_cursor_was_last_seen() {
    let mut window = WindowContext::new();
    let (x, y) = (12.5f32.to_bits(), 40.0f32.to_bits());
    assert_eq!(
        window.handle(RawInput::MousePressed(MouseButton::Left)),
        vec![Event::MouseDown(MouseButton::Left, 0, 0)]
    );
    assert_eq!(window.handle(RawInput::CursorMoved(x, y)), vec![Event::MouseMove(x, y)]);
    assert_eq!(
        window.handle(RawInput::MousePressed(MouseButton::Right)),
        vec![Event::MouseDown(MouseButton::Right, x, y)]
    );
    assert_eq!(window.held_buttons(), &vec![MouseButton::Left, MouseButton::Right]);
    assert_eq!(
        window.handle(RawInput::MouseReleased(MouseButton::Left)),
        vec![Event::MouseUp(MouseButton::Left, x, y)]
    );
    assert_eq!(window.held_buttons(), &vec![MouseButton::Right]);
}

#[test]
fn motion_is_a_drag_for_each_button_that_is_held() {
    let mut window = WindowContext::new();
    let (dx, dy) = (1.0f32.to_bits(), (-2.0f32).to_bits());
    assert!(window.handle(RawInput::MouseMotion(dx, dy)).is_empty());
    window.handle(RawInput::MousePressed(MouseButton::Middle));
    window.handle(RawInput::MousePressed(MouseButton::Left));
    window.handle(RawInput::MousePressed(MouseButton::Middle));
    assert_eq!(
        window.handle(RawInput::MouseMotion(dx, dy)),
        vec![
            Event::MouseDrag(MouseButton::Middle, dx, dy),
            Event::MouseDrag(MouseButton::Left, dx, dy),
        ]
    );
}

#[test]
fn motion_of_a_grabbed_mouse_is_reported_before_the_drags() {
    let mut window = WindowContext::new();
    let (dx, dy) = (3.0f32.to_bits(), 4.0f32.to_bits());
    assert!(!window.is_grabbed());
    window.grab_mouse();
    assert!(window.is_grabbed());
    assert_eq!(window.handle(RawInput::MouseMotion(dx, dy)), vec![Event::MouseMotion(dx, dy)]);
    window.handle(RawInput::MousePressed(MouseButton::Left));
    assert_eq!(
        window.handle(RawInput::MouseMotion(dx, dy)),
        vec![Event::MouseMotion(dx, dy), Event::MouseDrag(MouseButton::Left, dx, dy)]
    );
    window.release_mouse();
    assert!(!window.is_grabbed());
    assert_eq!(
        window.handle(RawInput::MouseMotion(dx, dy)),
        vec![Event::MouseDrag(MouseButton::Left, dx, dy)]
    );
}

#[test]
fn the_rest_is_passed_on_as_it_is() {
    let mut window = WindowContext::new();
    assert_eq!(window.handle(RawInput::Resized(800, 600)), vec![Event::WindowResize(800, 600)]);
    assert_eq!(window.handle(RawInput::MouseWheel(0, 7)), vec![Event::MouseWheel(0, 7)]);
    assert_eq!(
        window.handle(RawInput::ReceivedCharacter('x')),
        vec![Event::ReceivedCharacter('x')]
    );
    assert!(window.held_keys().is_empty());
    assert!(window.held_buttons().is_empty());
}

#[test]
fn contexts_hold_what_they_were_given() {
    let dt = std::time::Duration::from_millis(16);
    assert_eq!(UpdateContext::new(dt).dt(), dt);
    assert_eq!(MountContext::new(12).actor_id(), 12);
}

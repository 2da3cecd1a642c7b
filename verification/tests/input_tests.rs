use fractal_viewer::input::{
    handle_key, handle_mouse_click, handle_mouse_move, handle_scroll, route, Button, Effect, Event,
    Key, ViewCommand,
};
use fractal_viewer::mouse::MouseState;
use fractal_viewer::scalar::{Point, Scalar};
use fractal_viewer::tunables::Tunables;
use fractal_viewer::view::Direction;

fn scalar(x: f32) -> Scalar {
    Scalar::from_bits(x.to_bits())
}

fn point(x: f32, y: f32) -> Point {
    Point::new(scalar(x), scalar(y))
}

fn mouse_at(x: f32, y: f32, button_down: bool) -> MouseState {
    MouseState { position: point(x, y), button_down }
}

#[test]
fn initial_mouse_is_at_the_centre_with_the_button_up() {
    let m = MouseState::initial();
    assert_eq!(m.position, point(0.0, 0.0));
    assert!(!m.button_down);
}

#[test]
fn key_bindings() {
    let t = Tunables::initial();
    let speed = scalar(0.1);
    assert_eq!(t.pan_speed, speed);
    assert_eq!(handle_key(Key::J, &t), Effect::View(ViewCommand::ScaleByKey { grow: true, speed }));
    assert_eq!(handle_key(Key::K, &t), Effect::View(ViewCommand::ScaleByKey { grow: false, speed }));
    assert_eq!(
        handle_key(Key::W, &t),
        Effect::View(ViewCommand::PanByKey { direction: Direction::Up, speed })
    );
    assert_eq!(
        handle_key(Key::S, &t),
        Effect::View(ViewCommand::PanByKey { direction: Direction::Down, speed })
    );
    assert_eq!(
        handle_key(Key::A, &t),
        Effect::View(ViewCommand::PanByKey { direction: Direction::Left, speed })
    );
    assert_eq!(
        handle_key(Key::D, &t),
        Effect::View(ViewCommand::PanByKey { direction: Direction::Right, speed })
    );
    assert_eq!(handle_key(Key::R, &t), Effect::Reload);
    assert_eq!(handle_key(Key::Other, &t), Effect::Nothing);
}

#[test]
fn key_speed_follows_the_live_parameters() {
    let mut t = Tunables::initial();
    t.pan_speed = scalar(0.25);
    assert_eq!(
        handle_key(Key::J, &t),
        Effect::View(ViewCommand::ScaleByKey { grow: true, speed: scalar(0.25) })
    );
}

#[test]
fn keys_are_not_gated_by_capture() {
    let t = Tunables::initial();
    for key in [Key::J, Key::K, Key::W, Key::S, Key::A, Key::D, Key::R, Key::Other] {
        let mut free = mouse_at(0.25, 0.5, true);
        let mut held = free;
        let a = route(&mut free, &t, Event::KeyDown(key), false);
        let b = route(&mut held, &t, Event::KeyDown(key), true);
        assert_eq!(a, b);
        assert_eq!(a, handle_key(key, &t));
        assert_eq!(free, mouse_at(0.25, 0.5, true));
        assert_eq!(held, mouse_at(0.25, 0.5, true));
    }
}

#[test]
fn direction_steps() {
    assert_eq!(Direction::Up.unit_step(), (0, 1));
    assert_eq!(Direction::Down.unit_step(), (0, -1));
    assert_eq!(Direction::Left.unit_step(), (-1, 0));
    assert_eq!(Direction::Right.unit_step(), (1, 0));
}

#[test]
fn hover_updates_the_position_without_panning() {
    let mut m = mouse_at(0.0, 0.0, false);
    let e = handle_mouse_move(&mut m, point(0.5, -0.25));
    assert_eq!(e, Effect::Nothing);
    assert_eq!(m, mouse_at(0.5, -0.25, false));
}

#[test]
fn drag_pans_from_the_old_position_to_the_new() {
    let mut m = mouse_at(0.1, 0.2, true);
    let e = handle_mouse_move(&mut m, point(0.3, 0.6));
    assert_eq!(
        e,
        Effect::View(ViewCommand::PanByDrag { from: point(0.1, 0.2), to: point(0.3, 0.6) })
    );
    assert_eq!(m, mouse_at(0.3, 0.6, true));
}

#[test]
fn zero_motion_drag_pans_from_a_position_to_itself() {
    let mut m = mouse_at(0.3, 0.6, true);
    let e = handle_mouse_move(&mut m, point(0.3, 0.6));
    assert_eq!(
        e,
        Effect::View(ViewCommand::PanByDrag { from: point(0.3, 0.6), to: point(0.3, 0.6) })
    );
    assert_eq!(m, mouse_at(0.3, 0.6, true));
}

#[test]
fn move_with_a_coordinate_that_is_no_number_is_dropped() {
    let mut m = mouse_at(0.3, 0.6, true);
    assert_eq!(handle_mouse_move(&mut m, point(f32::NAN, 0.0)), Effect::Nothing);
    assert_eq!(m, mouse_at(0.3, 0.6, true));
    assert_eq!(handle_mouse_move(&mut m, point(0.0, f32::INFINITY)), Effect::Nothing);
    assert_eq!(m, mouse_at(0.3, 0.6, true));
}

#[test]
fn captured_move_reaches_neither_view_nor_pointer_state() {
    let t = Tunables::initial();
    let mut m = mouse_at(0.1, 0.2, true);
    let e = route(&mut m, &t, Event::MouseMove { position: point(0.9, 0.9) }, true);
    assert_eq!(e, Effect::Nothing);
    assert_eq!(m, mouse_at(0.1, 0.2, true));
}

#[test]
fn uncaptured_move_is_routed_to_the_move_handler() {
    let t = Tunables::initial();
    let mut m = mouse_at(0.1, 0.2, true);
    let e = route(&mut m, &t, Event::MouseMove { position: point(0.9, 0.8) }, false);
    assert_eq!(
        e,
        Effect::View(ViewCommand::PanByDrag { from: point(0.1, 0.2), to: point(0.9, 0.8) })
    );
    assert_eq!(m, mouse_at(0.9, 0.8, true));
}

#[test]
fn click_sets_and_clears_button_down() {
    let mut m = mouse_at(0.5, 0.5, false);
    handle_mouse_click(&mut m, true);
    assert_eq!(m, mouse_at(0.5, 0.5, true));
    handle_mouse_click(&mut m, true);
    assert_eq!(m, mouse_at(0.5, 0.5, true));
    handle_mouse_click(&mut m, false);
    assert_eq!(m, mouse_at(0.5, 0.5, false));
}

#[test]
fn only_the_primary_button_is_tracked() {
    let t = Tunables::initial();
    let mut m = mouse_at(0.5, 0.5, false);
    for button in [Button::Right, Button::Middle, Button::Other] {
        let e = route(&mut m, &t, Event::MouseButton { button, pressed: true }, false);
        assert_eq!(e, Effect::Nothing);
        assert_eq!(m, mouse_at(0.5, 0.5, false));
    }
    let e = route(&mut m, &t, Event::MouseButton { button: Button::Left, pressed: true }, false);
    assert_eq!(e, Effect::Nothing);
    assert_eq!(m, mouse_at(0.5, 0.5, true));
    let e = route(&mut m, &t, Event::MouseButton { button: Button::Right, pressed: false }, false);
    assert_eq!(e, Effect::Nothing);
    assert_eq!(m, mouse_at(0.5, 0.5, true));
    let e = route(&mut m, &t, Event::MouseButton { button: Button::Left, pressed: false }, true);
    assert_eq!(e, Effect::Nothing);
    assert_eq!(m, mouse_at(0.5, 0.5, false));
}

#[test]
fn scroll_zooms_at_the_cursor_with_the_live_sensitivity() {
    let t = Tunables::initial();
    let m = mouse_at(0.5, 0.5, false);
    let e = handle_scroll(&m, &t, scalar(1.0));
    assert_eq!(
        e,
        Effect::View(ViewCommand::ZoomAt {
            anchor: point(0.5, 0.5),
            amount: scalar(1.0),
            sensitivity: scalar(4.0),
        })
    );
    let e = handle_scroll(&m, &t, scalar(-3.0));
    assert_eq!(
        e,
        Effect::View(ViewCommand::ZoomAt {
            anchor: point(0.5, 0.5),
            amount: scalar(-3.0),
            sensitivity: scalar(4.0),
        })
    );
}

#[test]
fn scroll_by_no_number_is_dropped() {
    let t = Tunables::initial();
    let m = mouse_at(0.5, 0.5, false);
    assert_eq!(handle_scroll(&m, &t, scalar(f32::NAN)), Effect::Nothing);
    assert_eq!(handle_scroll(&m, &t, scalar(f32::NEG_INFINITY)), Effect::Nothing);
}

#[test]
fn scroll_is_routed_whether_captured_or_not() {
    let t = Tunables::initial();
    let mut m = mouse_at(-0.5, 0.25, true);
    let a = route(&mut m, &t, Event::Scroll { amount: scalar(2.0) }, false);
    let b = route(&mut m, &t, Event::Scroll { amount: scalar(2.0) }, true);
    assert_eq!(a, b);
    assert_eq!(
        a,
        Effect::View(ViewCommand::ZoomAt {
            anchor: point(-0.5, 0.25),
            amount: scalar(2.0),
            sensitivity: scalar(4.0),
        })
    );
    assert_eq!(m, mouse_at(-0.5, 0.25, true));
}

#[test]
fn close_asks_for_termination() {
    let t = Tunables::initial();
    let mut m = mouse_at(0.0, 0.0, false);
    assert_eq!(route(&mut m, &t, Event::Close, false), Effect::Terminate);
    assert_eq!(route(&mut m, &t, Event::Close, true), Effect::Terminate);
    assert_eq!(m, mouse_at(0.0, 0.0, false));
}

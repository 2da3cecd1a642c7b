//! Input events and what each of them asks for.
//!
//! Events are taken one at a time, in arrival order. Each is answered by an
//! [`Effect`]: nothing, the end of the loop, a reload of the configuration or
//! a change of the view that the caller carries out with the arguments given.
//!
//! Whether the overlay has the pointer is sampled once per frame and gates
//! cursor moves only. Buttons and the wheel always reach the viewer, so a
//! drag goes on across frames in which the overlay has the pointer: moves in
//! such frames are not seen, and the first move seen afterwards pans from the
//! last position seen before.

use vstd::prelude::*;
use crate::mouse::MouseState;
use crate::scalar::Point;
use crate::scalar::Scalar;
use crate::tunables::Tunables;
use crate::view::Direction;

verus! {

/// A key of the keyboard, as far as the viewer tells keys apart.
#[derive(Clone, Copy, Debug, PartialEq, Eq, Structural)]
pub enum Key {
    J,
    K,
    W,
    S,
    A,
    D,
    R,
    /// Any key without a binding.
    Other,
}

/// A button of the pointer.
#[derive(Clone, Copy, Debug, PartialEq, Eq, Structural)]
pub enum Button {
    Left,
    Right,
    Middle,
    Other,
}

/// A raw input event.
#[derive(Clone, Copy, Debug, PartialEq, Eq, Structural)]
pub enum Event {
    /// The window was asked to close.
    Close,
    /// A key went down.
    KeyDown(Key),
    /// The cursor moved to `position`, in normalised view coordinates.
    MouseMove { position: Point },
    /// A button went down (`pressed`) or up.
    MouseButton { button: Button, pressed: bool },
    /// The wheel turned by `amount` notches.
    Scroll { amount: Scalar },
}

/// A change of the view, with the arguments to carry it out.
#[derive(Clone, Copy, Debug, PartialEq, Eq, Structural)]
pub enum ViewCommand {
    /// Scale by `(1 - 0.1^sensitivity)^amount`, keeping the world point under
    /// `anchor` where it is.
    ZoomAt { anchor: Point, amount: Scalar, sensitivity: Scalar },
    /// Move the picture with the cursor, which went from `from` to `to`.
    PanByDrag { from: Point, to: Point },
    /// Move by `speed * scale` in `direction`.
    PanByKey { direction: Direction, speed: Scalar },
    /// Multiply the scale by `1 + speed` (`grow`) or `1 - speed`.
    ScaleByKey { grow: bool, speed: Scalar },
}

/// What an event asks of the caller.
#[derive(Clone, Copy, Debug, PartialEq, Eq, Structural)]
pub enum Effect {
    /// Nothing.
    Nothing,
    /// End the frame loop.
    Terminate,
    /// Read the configuration and the shader sources again.
    Reload,
    /// Change the view.
    View(ViewCommand),
}

/// The fixed key bindings: J and K zoom, W, S, A and D pan, R reloads. The
/// speed of a keyboard pan or zoom is the pan speed of the live parameters.
pub open spec fn key_effect(key: Key, tunables: Tunables) -> Effect {
    match key {
        Key::J => Effect::View(ViewCommand::ScaleByKey { grow: true, speed: tunables.pan_speed }),
        Key::K => Effect::View(ViewCommand::ScaleByKey { grow: false, speed: tunables.pan_speed }),
        Key::W => Effect::View(
            ViewCommand::PanByKey { direction: Direction::Up, speed: tunables.pan_speed },
        ),
        Key::S => Effect::View(
            ViewCommand::PanByKey { direction: Direction::Down, speed: tunables.pan_speed },
        ),
        Key::A => Effect::View(
            ViewCommand::PanByKey { direction: Direction::Left, speed: tunables.pan_speed },
        ),
        Key::D => Effect::View(
            ViewCommand::PanByKey { direction: Direction::Right, speed: tunables.pan_speed },
        ),
        Key::R => Effect::Reload,
        Key::Other => Effect::Nothing,
    }
}

/// The pointer state after an event. Only a cursor move that reaches the
/// viewer changes the position, and only the primary button changes
/// `button_down`. A move is kept from the viewer while the overlay has the
/// pointer, and dropped when a coordinate is not a real number.
pub open spec fn mouse_after(mouse: MouseState, event: Event, captured: bool) -> MouseState {
    match event {
        Event::MouseMove { position } => if !captured && position.finite() {
            MouseState { position, button_down: mouse.button_down }
        } else {
            mouse
        },
        Event::MouseButton { button: Button::Left, pressed } => MouseState {
            position: mouse.position,
            button_down: pressed,
        },
        _ => mouse,
    }
}

/// The effect of a cursor move that reached the viewer: while the primary
/// button is held, a pan from the remembered position to the new one. A
/// position that is not a pair of real numbers is dropped.
pub open spec fn move_effect(mouse: MouseState, position: Point) -> Effect {
    if position.finite() && mouse.button_down {
        Effect::View(ViewCommand::PanByDrag { from: mouse.position, to: position })
    } else {
        Effect::Nothing
    }
}

/// The effect of a turn of the wheel: a zoom about the remembered cursor
/// position. An amount that is not a real number is dropped.
pub open spec fn scroll_effect(mouse: MouseState, tunables: Tunables, amount: Scalar) -> Effect {
    if amount.finite() {
        Effect::View(
            ViewCommand::ZoomAt {
                anchor: mouse.position,
                amount,
                sensitivity: tunables.scroll_sensitivity,
            },
        )
    } else {
        Effect::Nothing
    }
}

/// The effect of an event. Keys follow [`key_effect`] and the wheel
/// [`scroll_effect`], whether or not the overlay has the pointer; a cursor
/// move follows [`move_effect`] unless the overlay has the pointer; buttons
/// change the pointer state only.
pub open spec fn effect_of(
    mouse: MouseState,
    tunables: Tunables,
    event: Event,
    captured: bool,
) -> Effect {
    match event {
        Event::Close => Effect::Terminate,
        Event::KeyDown(key) => key_effect(key, tunables),
        Event::MouseMove { position } => if captured {
            Effect::Nothing
        } else {
            move_effect(mouse, position)
        },
        Event::MouseButton { .. } => Effect::Nothing,
        Event::Scroll { amount } => scroll_effect(mouse, tunables, amount),
    }
}

/// Answers a key press by its binding.
pub fn handle_key(key: Key, tunables: &Tunables) -> (effect: Effect)
    ensures
        effect == key_effect(key, *tunables),
{
    let speed = tunables.pan_speed;
    match key {
        Key::J => Effect::View(ViewCommand::ScaleByKey { grow: true, speed }),
        Key::K => Effect::View(ViewCommand::ScaleByKey { grow: false, speed }),
        Key::W => Effect::View(ViewCommand::PanByKey { direction: Direction::Up, speed }),
        Key::S => Effect::View(ViewCommand::PanByKey { direction: Direction::Down, speed }),
        Key::A => Effect::View(ViewCommand::PanByKey { direction: Direction::Left, speed }),
        Key::D => Effect::View(ViewCommand::PanByKey { direction: Direction::Right, speed }),
        Key::R => Effect::Reload,
        Key::Other => Effect::Nothing,
    }
}

/// Takes a cursor move that reached the viewer: remembers the new position
/// and, while the primary button is held, asks for a pan from the old one.
pub fn handle_mouse_move(mouse: &mut MouseState, position: Point) -> (effect: Effect)
    ensures
        *final(mouse) == mouse_after(*old(mouse), Event::MouseMove { position }, false),
        effect == move_effect(*old(mouse), position),
{
    if !position.is_finite() {
        return Effect::Nothing;
    }
    let from = mouse.position;
    mouse.position = position;
    if mouse.button_down {
        Effect::View(ViewCommand::PanByDrag { from, to: position })
    } else {
        Effect::Nothing
    }
}

/// Takes a press or release of the primary button.
pub fn handle_mouse_click(mouse: &mut MouseState, pressed: bool)
    ensures
        *final(mouse) == (MouseState { position: old(mouse).position, button_down: pressed }),
{
    mouse.button_down = pressed;
}

/// Answers a turn of the wheel by a zoom about the remembered cursor position.
pub fn handle_scroll(mouse: &MouseState, tunables: &Tunables, amount: Scalar) -> (effect: Effect)
    ensures
        effect == scroll_effect(*mouse, *tunables, amount),
{
    if amount.is_finite() {
        Effect::View(
            ViewCommand::ZoomAt {
                anchor: mouse.position,
                amount,
                sensitivity: tunables.scroll_sensitivity,
            },
        )
    } else {
        Effect::Nothing
    }
}

/// Routes one event: updates the pointer state and says what the event asks
/// for. `captured` tells whether the overlay has the pointer in this frame.
pub fn route(mouse: &mut MouseState, tunables: &Tunables, event: Event, captured: bool) -> (effect:
    Effect)
    ensures
        *final(mouse) == mouse_after(*old(mouse), event, captured),
        effect == effect_of(*old(mouse), *tunables, event, captured),
        old(mouse).valid() ==> final(mouse).valid(),
{
    match event {
        Event::Close => Effect::Terminate,
        Event::KeyDown(key) => handle_key(key, tunables),
        Event::MouseMove { position } => {
            if captured {
                Effect::Nothing
            } else {
                handle_mouse_move(mouse, position)
            }
        },
        Event::MouseButton { button, pressed } => {
            match button {
                Button::Left => handle_mouse_click(mouse, pressed),
                _ => {},
            }
            Effect::Nothing
        },
        Event::Scroll { amount } => handle_scroll(mouse, tunables, amount),
    }
}

/// Keyboard events are never gated: a key press has the same effect whether
/// or not the overlay has the pointer, and leaves the pointer state alone.
pub proof fn lemma_keys_are_never_gated(mouse: MouseState, tunables: Tunables, key: Key)
    ensures
        effect_of(mouse, tunables, Event::KeyDown(key), true) == key_effect(key, tunables),
        effect_of(mouse, tunables, Event::KeyDown(key), false) == key_effect(key, tunables),
        mouse_after(mouse, Event::KeyDown(key), true) == mouse,
        mouse_after(mouse, Event::KeyDown(key), false) == mouse,
{
}

/// While the overlay has the pointer a cursor move reaches neither the view
/// nor the pointer state.
pub proof fn lemma_captured_move_changes_nothing(
    mouse: MouseState,
    tunables: Tunables,
    position: Point,
)
    ensures
        effect_of(mouse, tunables, Event::MouseMove { position }, true) == Effect::Nothing,
        mouse_after(mouse, Event::MouseMove { position }, true) == mouse,
{
}

/// The remembered position changes only on a cursor move and `button_down`
/// only on a press or release of the primary button, which sets it to
/// `pressed`.
pub proof fn lemma_pointer_state_changes_only_by_its_events(
    mouse: MouseState,
    event: Event,
    captured: bool,
)
    ensures
        !(event is MouseMove) ==> mouse_after(mouse, event, captured).position == mouse.position,
        !(event matches Event::MouseButton { button: Button::Left, .. }) ==> mouse_after(
            mouse,
            event,
            captured,
        ).button_down == mouse.button_down,
        event matches Event::MouseButton { button: Button::Left, pressed } ==> mouse_after(
            mouse,
            event,
            captured,
        ).button_down == pressed,
{
}

} // verus!

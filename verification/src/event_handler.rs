//! What the application does with each window and keyboard event.
//!
//! The window loop lives with the caller: it turns each event into a
//! `WindowInput`, asks `window_action` what to do, and does it.

use vstd::prelude::*;

use crate::camera::is_camera_key;
use crate::hypershape::is_slice_key;
use crate::input::{Key, KeyInput};

verus! {

/// The mouse cursor shapes the application switches between.
#[derive(Clone, Copy, Debug, PartialEq, Eq, Structural)]
pub enum CursorIcon {
    /// Shown while left shift is held and the mouse turns the camera.
    Grab,
    /// The ordinary pointer.
    Pointer,
}

/// What to do with a keyboard event.
#[derive(Clone, Copy, Debug, PartialEq, Eq, Structural)]
pub enum KeyboardAction {
    /// Leave the event loop.
    Exit,
    /// Set the cursor icon, if one is given, and hand the event to the camera controller.
    CameraMovement { cursor: Option<CursorIcon> },
    /// Hand the event to the w-slice control.
    SliceMovement,
    /// Nothing.
    Ignore,
}

/// A window event, with the values the application reads from it.
#[derive(Clone, Copy, Debug, PartialEq, Eq, Structural)]
pub enum WindowInput {
    CloseRequested,
    Focused(bool),
    Resized { width: u32, height: u32 },
    ScaleFactorChanged,
    KeyboardInput(KeyInput),
    CursorEntered,
    CursorLeft,
    CursorMoved,
    RedrawRequested,
    Other,
}

/// What to do with a window event.
#[derive(Clone, Copy, Debug, PartialEq, Eq, Structural)]
pub enum WindowAction {
    /// Leave the event loop.
    Exit,
    /// Show or hide the cursor.
    SetCursorVisible(bool),
    /// Resize the surface to the given size.
    Resize { width: u32, height: u32 },
    /// Resize the surface to its current size times the new scale factor.
    ResizeScaled,
    /// Act on a keyboard event.
    Keyboard(KeyboardAction),
    /// Forget the last cursor position.
    ForgetCursor,
    /// Record the new cursor position; when `forward_delta` holds, first hand
    /// the motion since the last position to the renderer.
    MoveCursor { forward_delta: bool },
    /// Request the next frame and render this one.
    Redraw,
    /// Nothing.
    Ignore,
}

/// What the application does with a keyboard event.
pub open spec fn spec_keyboard_action(event: KeyInput) -> KeyboardAction {
    match event.key {
        Key::Escape => if event.pressed {
            KeyboardAction::Exit
        } else {
            KeyboardAction::Ignore
        },
        Key::ShiftLeft => KeyboardAction::CameraMovement {
            cursor: Some(
                if event.pressed {
                    CursorIcon::Grab
                } else {
                    CursorIcon::Pointer
                },
            ),
        },
        Key::KeyW | Key::KeyS | Key::KeyA | Key::KeyD => KeyboardAction::CameraMovement {
            cursor: None,
        },
        Key::KeyJ | Key::KeyK => KeyboardAction::SliceMovement,
        Key::Other => KeyboardAction::Ignore,
    }
}

/// What the application does with a window event; `cursor_known` tells
/// whether a previous cursor position is recorded.
pub open spec fn spec_window_action(input: WindowInput, cursor_known: bool) -> WindowAction {
    match input {
        WindowInput::CloseRequested => WindowAction::Exit,
        WindowInput::Focused(focused) => WindowAction::SetCursorVisible(focused),
        WindowInput::Resized { width, height } => WindowAction::Resize { width, height },
        WindowInput::ScaleFactorChanged => WindowAction::ResizeScaled,
        WindowInput::KeyboardInput(event) => WindowAction::Keyboard(spec_keyboard_action(event)),
        WindowInput::CursorEntered | WindowInput::CursorLeft => WindowAction::ForgetCursor,
        WindowInput::CursorMoved => WindowAction::MoveCursor { forward_delta: cursor_known },
        WindowInput::RedrawRequested => WindowAction::Redraw,
        WindowInput::Other => WindowAction::Ignore,
    }
}

/// Decides what to do with a keyboard event: Escape pressed exits; left shift
/// goes to the camera with the grab cursor while held and the pointer when
/// released; W, S, A, D go to the camera; J and K go to the w-slice; anything
/// else is ignored.
pub fn keyboard_action(event: &KeyInput) -> (action: KeyboardAction)
    ensures
        action == spec_keyboard_action(*event),
{
    match event.key {
        Key::Escape => {
            if event.pressed {
                KeyboardAction::Exit
            } else {
                KeyboardAction::Ignore
            }
        },
        Key::ShiftLeft => {
            let icon = if event.pressed {
                CursorIcon::Grab
            } else {
                CursorIcon::Pointer
            };
            KeyboardAction::CameraMovement { cursor: Some(icon) }
        },
        Key::KeyW | Key::KeyS | Key::KeyA | Key::KeyD => KeyboardAction::CameraMovement {
            cursor: None,
        },
        Key::KeyJ | Key::KeyK => KeyboardAction::SliceMovement,
        Key::Other => KeyboardAction::Ignore,
    }
}

/// Decides what to do with a window event.
pub fn window_action(input: &WindowInput, cursor_known: bool) -> (action: WindowAction)
    ensures
        action == spec_window_action(*input, cursor_known),
        forall|focused: bool|
            *input == WindowInput::Focused(focused) ==> action == WindowAction::SetCursorVisible(
                focused,
            ),
{
    match input {
        WindowInput::CloseRequested => WindowAction::Exit,
        WindowInput::Focused(focused) => WindowAction::SetCursorVisible(*focused),
        WindowInput::Resized { width, height } => WindowAction::Resize {
            width: *width,
            height: *height,
        },
        WindowInput::ScaleFactorChanged => WindowAction::ResizeScaled,
        WindowInput::KeyboardInput(event) => WindowAction::Keyboard(keyboard_action(event)),
        WindowInput::CursorEntered | WindowInput::CursorLeft => WindowAction::ForgetCursor,
        WindowInput::CursorMoved => WindowAction::MoveCursor { forward_delta: cursor_known },
        WindowInput::RedrawRequested => WindowAction::Redraw,
        WindowInput::Other => WindowAction::Ignore,
    }
}

/// Whether a previous cursor position is known after `input`: a move records
/// one, entering or leaving the window forgets it, other events keep it.
pub open spec fn spec_cursor_known_after(input: WindowInput, cursor_known: bool) -> bool {
    match input {
        WindowInput::CursorMoved => true,
        WindowInput::CursorEntered | WindowInput::CursorLeft => false,
        _ => cursor_known,
    }
}

/// Whether a previous cursor position is known after a run of events.
pub open spec fn cursor_known_after_all(inputs: Seq<WindowInput>, cursor_known: bool) -> bool
    decreases inputs.len(),
{
    if inputs.len() == 0 {
        cursor_known
    } else {
        spec_cursor_known_after(inputs.last(), cursor_known_after_all(inputs.drop_last(), cursor_known))
    }
}

/// The action taken on the event at `index` of a run, with `cursor_known` at its start.
pub open spec fn action_in_run(inputs: Seq<WindowInput>, cursor_known: bool, index: int) -> WindowAction {
    spec_window_action(inputs[index], cursor_known_after_all(inputs.take(index), cursor_known))
}

/// Entering the window, then `moves` cursor moves.
pub open spec fn enter_then_moves(moves: nat) -> Seq<WindowInput> {
    seq![WindowInput::CursorEntered] + Seq::new(moves, |i: int| WindowInput::CursorMoved)
}

/// Whether a previous cursor position is known after this event.
pub fn cursor_known_after(input: &WindowInput, cursor_known: bool) -> (known: bool)
    ensures
        known == spec_cursor_known_after(*input, cursor_known),
        !(*input is CursorMoved || *input is CursorEntered || *input is CursorLeft) ==> known
            == cursor_known,
{
    match input {
        WindowInput::CursorMoved => true,
        WindowInput::CursorEntered | WindowInput::CursorLeft => false,
        _ => cursor_known,
    }
}

/// The keys routed to the camera are exactly the keys the camera controller handles.
pub proof fn law_camera_routing_matches_controller(event: KeyInput)
    ensures
        (spec_keyboard_action(event) is CameraMovement) <==> is_camera_key(event.key),
{
}

/// The keys routed to the w-slice are exactly J and K.
pub proof fn law_slice_routing(event: KeyInput)
    ensures
        (spec_keyboard_action(event) is SliceMovement) <==> is_slice_key(event.key),
{
}

/// The application exits on a keyboard event only when Escape is pressed.
pub proof fn law_exit_only_on_escape_press(event: KeyInput)
    ensures
        (spec_keyboard_action(event) == KeyboardAction::Exit) <==> (event.key == Key::Escape
            && event.pressed),
{
}

/// The cursor shows the grab icon exactly while left shift is held.
pub proof fn law_grab_cursor_while_shift_held(event: KeyInput)
    requires
        event.key == Key::ShiftLeft,
    ensures
        spec_keyboard_action(event) == (KeyboardAction::CameraMovement {
            cursor: Some(
                if event.pressed {
                    CursorIcon::Grab
                } else {
                    CursorIcon::Pointer
                },
            ),
        }),
        (spec_keyboard_action(event) == KeyboardAction::CameraMovement {
            cursor: Some(CursorIcon::Grab),
        }) <==> event.pressed,
{
}

/// Mouse motion is handed on only when a previous cursor position is known,
/// and entering or leaving the window forgets that position.
pub proof fn law_cursor_delta_needs_known_position(cursor_known: bool)
    ensures
        spec_window_action(WindowInput::CursorMoved, cursor_known) == (WindowAction::MoveCursor {
            forward_delta: cursor_known,
        }),
        spec_window_action(WindowInput::CursorEntered, cursor_known) == WindowAction::ForgetCursor,
        spec_window_action(WindowInput::CursorLeft, cursor_known) == WindowAction::ForgetCursor,
{
}


proof fn lemma_known_in_enter_then_moves(moves: nat, cursor_known: bool, index: int)
    requires
        1 <= index <= moves + 1,
    ensures
        cursor_known_after_all(enter_then_moves(moves).take(index), cursor_known) == (index >= 2),
    decreases index,
{
    let run = enter_then_moves(moves);
    let prefix = run.take(index);
    if index == 1 {
        assert(prefix.drop_last() =~= Seq::<WindowInput>::empty());
        assert(prefix.last() == WindowInput::CursorEntered);
    } else {
        lemma_known_in_enter_then_moves(moves, cursor_known, index - 1);
        assert(prefix.drop_last() =~= run.take(index - 1));
        assert(prefix.last() == run[index - 1]);
        assert(run[index - 1] == WindowInput::CursorMoved);
    }
}

/// After entering the window, the first cursor move hands on no motion and
/// every later move does, whatever was known before.
pub proof fn law_first_move_after_entering_forwards_nothing(moves: nat, cursor_known: bool, index: int)
    requires
        1 <= index <= moves,
    ensures
        action_in_run(enter_then_moves(moves), cursor_known, index) == (WindowAction::MoveCursor {
            forward_delta: index >= 2,
        }),
{
    lemma_known_in_enter_then_moves(moves, cursor_known, index);
    assert(enter_then_moves(moves)[index] == WindowInput::CursorMoved);
}

/// Once the cursor has moved, the next move hands on motion.
pub proof fn law_move_after_move_forwards(cursor_known: bool)
    ensures
        spec_window_action(
            WindowInput::CursorMoved,
            spec_cursor_known_after(WindowInput::CursorMoved, cursor_known),
        ) == (WindowAction::MoveCursor { forward_delta: true }),
{
}


/// The cursor is visible exactly when the window has focus: a focus event
/// shows the cursor when focus is gained and hides it when focus is lost.
pub proof fn law_cursor_visible_iff_focused(focused: bool, cursor_known: bool)
    ensures
        spec_window_action(WindowInput::Focused(focused), cursor_known)
            == WindowAction::SetCursorVisible(focused),
        spec_window_action(WindowInput::Focused(true), cursor_known)
            != WindowAction::SetCursorVisible(false),
{
}

/// Only cursor events change whether a cursor position is known; every other
/// event, keyboard events among them, keeps what was known.
pub proof fn law_only_cursor_events_change_cursor_state(input: WindowInput, cursor_known: bool)
    requires
        !(input is CursorMoved || input is CursorEntered || input is CursorLeft),
    ensures
        spec_cursor_known_after(input, cursor_known) == cursor_known,
{
}

/// A key press between two cursor moves does not stop the second move from
/// handing on motion.
pub proof fn law_key_event_keeps_mouse_motion(event: KeyInput, cursor_known: bool)
    ensures
        spec_window_action(
            WindowInput::CursorMoved,
            spec_cursor_known_after(
                WindowInput::KeyboardInput(event),
                spec_cursor_known_after(WindowInput::CursorMoved, cursor_known),
            ),
        ) == (WindowAction::MoveCursor { forward_delta: true }),
{
}

} // verus!

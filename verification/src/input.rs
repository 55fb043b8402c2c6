use vstd::prelude::*;

verus! {

/// A mouse button.
#[derive(Debug, Clone, Copy, PartialEq, Eq, Structural)]
pub enum MouseButton {
    Left,
    Middle,
    Right,
}

/// A key that the game reacts to; every other key is `Other`.
#[derive(Debug, Clone, Copy, PartialEq, Eq, Structural)]
pub enum Key {
    R,
    T,
    P,
    F2,
    Other,
}

/// A window event, reduced to what the game decides on. The pointer
/// positions and wheel amounts stay with the caller.
#[derive(Debug, Clone, Copy, PartialEq, Eq, Structural)]
pub enum Input {
    MouseDown(MouseButton),
    MouseUp(MouseButton),
    MouseMove,
    Wheel,
    /// A key press, with whether the left control key is held.
    KeyDown { key: Key, ctrl_held: bool },
    Other,
}

/// What the game does in answer to an event.
#[derive(Debug, Clone, Copy, PartialEq, Eq, Structural)]
pub enum InputAction {
    /// Nothing.
    Nothing,
    /// A click on the shot control.
    Click,
    /// Move the ball onto the level point under the pointer.
    Teleport,
    /// Lock the cursor and start turning the camera.
    StartCameraControl,
    /// Unlock the cursor and stop turning the camera.
    StopCameraControl,
    /// Turn the camera by the pointer movement.
    RotateCamera,
    /// Change the camera distance by the wheel amount.
    Zoom,
    /// Start the run over.
    Reset,
    /// Print the ball position.
    PrintPosition,
    /// Show or hide the run clock.
    ToggleTimer,
}

pub open spec fn spec_decide_input(input: Input, controlling_camera: bool) -> InputAction {
    match input {
        Input::MouseDown(MouseButton::Left) => if controlling_camera {
            InputAction::Nothing
        } else {
            InputAction::Click
        },
        Input::MouseDown(MouseButton::Middle) => InputAction::Teleport,
        Input::MouseDown(MouseButton::Right) => InputAction::StartCameraControl,
        Input::MouseUp(MouseButton::Right) => InputAction::StopCameraControl,
        Input::MouseMove => if controlling_camera {
            InputAction::RotateCamera
        } else {
            InputAction::Nothing
        },
        Input::Wheel => InputAction::Zoom,
        Input::KeyDown { key, ctrl_held } => match key {
            Key::R => if ctrl_held {
                InputAction::Reset
            } else {
                InputAction::Nothing
            },
            Key::T => InputAction::Teleport,
            Key::P => InputAction::PrintPosition,
            Key::F2 => InputAction::ToggleTimer,
            Key::Other => InputAction::Nothing,
        },
        _ => InputAction::Nothing,
    }
}

/// Decides the answer to an event, given whether the camera is being turned.
pub fn decide_input(input: Input, controlling_camera: bool) -> (r: InputAction)
    ensures
        r == spec_decide_input(input, controlling_camera),
        input == Input::MouseDown(MouseButton::Left) ==> r == (if controlling_camera {
            InputAction::Nothing
        } else {
            InputAction::Click
        }),
        input == Input::MouseDown(MouseButton::Middle) ==> r == InputAction::Teleport,
        input == Input::MouseDown(MouseButton::Right) ==> r == InputAction::StartCameraControl,
        input == Input::MouseUp(MouseButton::Right) ==> r == InputAction::StopCameraControl,
        input == Input::MouseUp(MouseButton::Left) ==> r == InputAction::Nothing,
        input == Input::MouseUp(MouseButton::Middle) ==> r == InputAction::Nothing,
        input == Input::MouseMove ==> r == (if controlling_camera {
            InputAction::RotateCamera
        } else {
            InputAction::Nothing
        }),
        input == Input::Wheel ==> r == InputAction::Zoom,
        input == Input::Other ==> r == InputAction::Nothing,
        forall|ctrl_held: bool|
            input == (Input::KeyDown { key: Key::R, ctrl_held }) ==> r == (if ctrl_held {
                InputAction::Reset
            } else {
                InputAction::Nothing
            }),
        forall|ctrl_held: bool|
            input == (Input::KeyDown { key: Key::T, ctrl_held }) ==> r == InputAction::Teleport,
        forall|ctrl_held: bool|
            input == (Input::KeyDown { key: Key::P, ctrl_held }) ==> r == InputAction::PrintPosition,
        forall|ctrl_held: bool|
            input == (Input::KeyDown { key: Key::F2, ctrl_held }) ==> r == InputAction::ToggleTimer,
        forall|ctrl_held: bool|
            input == (Input::KeyDown { key: Key::Other, ctrl_held }) ==> r == InputAction::Nothing,
{
    match input {
        Input::MouseDown(MouseButton::Left) => {
            if controlling_camera {
                InputAction::Nothing
            } else {
                InputAction::Click
            }
        },
        Input::MouseDown(MouseButton::Middle) => InputAction::Teleport,
        Input::MouseDown(MouseButton::Right) => InputAction::StartCameraControl,
        Input::MouseUp(MouseButton::Right) => InputAction::StopCameraControl,
        Input::MouseMove => {
            if controlling_camera {
                InputAction::RotateCamera
            } else {
                InputAction::Nothing
            }
        },
        Input::Wheel => InputAction::Zoom,
        Input::KeyDown { key, ctrl_held } => match key {
            Key::R => {
                if ctrl_held {
                    InputAction::Reset
                } else {
                    InputAction::Nothing
                }
            },
            Key::T => InputAction::Teleport,
            Key::P => InputAction::PrintPosition,
            Key::F2 => InputAction::ToggleTimer,
            Key::Other => InputAction::Nothing,
        },
        _ => InputAction::Nothing,
    }
}

pub open spec fn spec_controlling_after(action: InputAction, controlling_camera: bool) -> bool {
    match action {
        InputAction::StartCameraControl => true,
        InputAction::StopCameraControl => false,
        _ => controlling_camera,
    }
}

/// Whether the camera is being turned after the given action.
pub fn controlling_after(action: InputAction, controlling_camera: bool) -> (r: bool)
    ensures
        r == spec_controlling_after(action, controlling_camera),
        action == InputAction::StartCameraControl ==> r,
        action == InputAction::StopCameraControl ==> !r,
        (action != InputAction::StartCameraControl && action != InputAction::StopCameraControl)
            ==> r == controlling_camera,
{
    match action {
        InputAction::StartCameraControl => true,
        InputAction::StopCameraControl => false,
        _ => controlling_camera,
    }
}

/// While the camera is being turned, no event reaches the shot control; the
/// right button starts turning it and its release stops it, whatever came before.
pub proof fn law_camera_control(input: Input, controlling_camera: bool)
    ensures
        controlling_camera ==> spec_decide_input(input, controlling_camera) != InputAction::Click,
        spec_controlling_after(
            spec_decide_input(Input::MouseDown(MouseButton::Right), controlling_camera),
            controlling_camera,
        ),
        !spec_controlling_after(
            spec_decide_input(Input::MouseUp(MouseButton::Right), controlling_camera),
            controlling_camera,
        ),
        (input != Input::MouseDown(MouseButton::Right) && input != Input::MouseUp(MouseButton::Right))
            ==> spec_controlling_after(spec_decide_input(input, controlling_camera), controlling_camera)
            == controlling_camera,
{
}

/// Key presses other than R act the same whether or not control is held and
/// whether or not the camera is turned; F2 always toggles the clock.
pub proof fn law_keys_ignore_modifiers(key: Key, ctrl_a: bool, ctrl_b: bool, cam_a: bool, cam_b: bool)
    ensures
        key != Key::R ==> spec_decide_input(Input::KeyDown { key, ctrl_held: ctrl_a }, cam_a)
            == spec_decide_input(Input::KeyDown { key, ctrl_held: ctrl_b }, cam_b),
        spec_decide_input(Input::KeyDown { key: Key::F2, ctrl_held: ctrl_a }, cam_a)
            == InputAction::ToggleTimer,
        spec_decide_input(Input::KeyDown { key: Key::R, ctrl_held: ctrl_a }, cam_a) == (if ctrl_a {
            InputAction::Reset
        } else {
            InputAction::Nothing
        }),
{
}

} // verus!

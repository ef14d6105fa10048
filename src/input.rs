//! What the viewer does in answer to a window event.
use vstd::prelude::*;

verus! {

/// The keys the viewer tells apart.
#[derive(Clone, Copy, Debug, PartialEq, Eq, Structural)]
pub enum KeyName {
    Escape,
    /// Reloads the shader program.
    R,
    Other,
}

#[derive(Clone, Copy, Debug, PartialEq, Eq, Structural)]
pub enum Press {
    Down,
    Up,
    Repeat,
}

/// A window event, reduced to what the viewer reads of it.
#[derive(Clone, Copy, Debug, PartialEq, Eq, Structural)]
pub enum WindowInput {
    Key { key: KeyName, press: Press },
    /// A mouse button; `primary` is the first button.
    MouseButton { primary: bool, press: Press },
    Resize { width: i32, height: i32 },
    Other,
}

/// What to do about an event.
#[derive(Clone, Copy, Debug, PartialEq, Eq, Structural)]
pub enum Response {
    /// Close the window, which ends the frame loop.
    Close,
    /// Build the shader program again and, if that succeeds, use it.
    ReloadProgram,
    /// Put the eye back at its resting position.
    ResetEye,
    /// Fit the projection and the viewport to a new window size.
    Reshape { width: i32, height: i32 },
    Ignore,
}

/// Escape pressed closes the window; `R` reloads the program on any key
/// event; pressing the first mouse button resets the eye; a resize reshapes.
pub open spec fn spec_respond(e: WindowInput) -> Response {
    match e {
        WindowInput::Key { key: KeyName::Escape, press: Press::Down } => Response::Close,
        WindowInput::Key { key: KeyName::R, .. } => Response::ReloadProgram,
        WindowInput::MouseButton { primary: true, press: Press::Down } => Response::ResetEye,
        WindowInput::Resize { width, height } => Response::Reshape { width, height },
        _ => Response::Ignore,
    }
}

pub fn respond(e: WindowInput) -> (r: Response)
    ensures
        r == spec_respond(e),
{
    match e {
        WindowInput::Key { key, press } => match key {
            KeyName::Escape => match press {
                Press::Down => Response::Close,
                _ => Response::Ignore,
            },
            KeyName::R => Response::ReloadProgram,
            KeyName::Other => Response::Ignore,
        },
        WindowInput::MouseButton { primary, press } => {
            if primary && press == Press::Down {
                Response::ResetEye
            } else {
                Response::Ignore
            }
        },
        WindowInput::Resize { width, height } => Response::Reshape { width, height },
        WindowInput::Other => Response::Ignore,
    }
}

} // verus!

//! Mouse button and mouse mode codes and their translation to the native
//! ones.

use vstd::prelude::*;

verus! {

/// A mouse button as it crosses the boundary. The variant names carry a
/// prefix so that they cannot collide with key names in a flat namespace.
#[derive(Debug, Clone, Copy, PartialEq, Eq, Structural)]
pub enum MiniFBMouseButton {
    MouseLeft,
    MouseMiddle,
    MouseRight,
}

impl MiniFBMouseButton {
    /// The integer that stands for this button on the wire.
    pub open spec fn wire_code(self) -> int {
        match self {
            MiniFBMouseButton::MouseLeft => 0,
            MiniFBMouseButton::MouseMiddle => 1,
            MiniFBMouseButton::MouseRight => 2,
        }
    }

    /// The button that a wire code names. Codes other than 0, 1 and 2 name
    /// no button.
    pub open spec fn of_code(code: i32) -> Option<MiniFBMouseButton> {
        match code {
            0 => Some(MiniFBMouseButton::MouseLeft),
            1 => Some(MiniFBMouseButton::MouseMiddle),
            2 => Some(MiniFBMouseButton::MouseRight),
            _ => None,
        }
    }

    /// The native button this wire button names.
    pub open spec fn native(self) -> minifb::MouseButton {
        match self {
            MiniFBMouseButton::MouseLeft => minifb::MouseButton::Left,
            MiniFBMouseButton::MouseMiddle => minifb::MouseButton::Middle,
            MiniFBMouseButton::MouseRight => minifb::MouseButton::Right,
        }
    }

    /// The wire code of this button.
    pub fn code(self) -> (c: i32)
        ensures
            c == self.wire_code(),
    {
        match self {
            MiniFBMouseButton::MouseLeft => 0,
            MiniFBMouseButton::MouseMiddle => 1,
            MiniFBMouseButton::MouseRight => 2,
        }
    }

    /// Reads a wire code. Codes other than 0, 1 and 2 name no button.
    pub fn from_code(code: i32) -> (button: Option<MiniFBMouseButton>)
        ensures
            button == MiniFBMouseButton::of_code(code),
            button is Some <==> 0 <= code <= 2,
            button matches Some(b) ==> b.wire_code() == code,
    {
        match code {
            0 => Some(MiniFBMouseButton::MouseLeft),
            1 => Some(MiniFBMouseButton::MouseMiddle),
            2 => Some(MiniFBMouseButton::MouseRight),
            _ => None,
        }
    }

    /// Translates this wire button to the native button it names.
    pub fn to_minifb(self) -> (button: minifb::MouseButton)
        ensures
            button == self.native(),
    {
        match self {
            MiniFBMouseButton::MouseLeft => minifb::MouseButton::Left,
            MiniFBMouseButton::MouseMiddle => minifb::MouseButton::Middle,
            MiniFBMouseButton::MouseRight => minifb::MouseButton::Right,
        }
    }
}

/// How mouse coordinates outside the window are reported.
#[derive(Debug, Clone, Copy, PartialEq, Eq, Structural)]
pub enum MiniFBMouseMode {
    /// Coordinates are passed through as they are, outside the window too.
    Pass,
    /// Coordinates are clamped to the window.
    Clamp,
    /// No position is reported while the pointer is outside the window.
    Discard,
}

impl MiniFBMouseMode {
    /// The integer that stands for this mode on the wire.
    pub open spec fn wire_code(self) -> int {
        match self {
            MiniFBMouseMode::Pass => 0,
            MiniFBMouseMode::Clamp => 1,
            MiniFBMouseMode::Discard => 2,
        }
    }

    /// The mode that a wire code names. Codes other than 0, 1 and 2 name no
    /// mode.
    pub open spec fn of_code(code: i32) -> Option<MiniFBMouseMode> {
        match code {
            0 => Some(MiniFBMouseMode::Pass),
            1 => Some(MiniFBMouseMode::Clamp),
            2 => Some(MiniFBMouseMode::Discard),
            _ => None,
        }
    }

    /// The native mode this wire mode names.
    pub open spec fn native(self) -> minifb::MouseMode {
        match self {
            MiniFBMouseMode::Pass => minifb::MouseMode::Pass,
            MiniFBMouseMode::Clamp => minifb::MouseMode::Clamp,
            MiniFBMouseMode::Discard => minifb::MouseMode::Discard,
        }
    }

    /// The wire code of this mode.
    pub fn code(self) -> (c: i32)
        ensures
            c == self.wire_code(),
    {
        match self {
            MiniFBMouseMode::Pass => 0,
            MiniFBMouseMode::Clamp => 1,
            MiniFBMouseMode::Discard => 2,
        }
    }

    /// Reads a wire code. Codes other than 0, 1 and 2 name no mode.
    pub fn from_code(code: i32) -> (mode: Option<MiniFBMouseMode>)
        ensures
            mode == MiniFBMouseMode::of_code(code),
            mode is Some <==> 0 <= code <= 2,
            mode matches Some(m) ==> m.wire_code() == code,
    {
        match code {
            0 => Some(MiniFBMouseMode::Pass),
            1 => Some(MiniFBMouseMode::Clamp),
            2 => Some(MiniFBMouseMode::Discard),
            _ => None,
        }
    }

    /// Translates this wire mode to the native mode it names.
    pub fn to_minifb(self) -> (mode: minifb::MouseMode)
        ensures
            mode == self.native(),
    {
        match self {
            MiniFBMouseMode::Pass => minifb::MouseMode::Pass,
            MiniFBMouseMode::Clamp => minifb::MouseMode::Clamp,
            MiniFBMouseMode::Discard => minifb::MouseMode::Discard,
        }
    }
}

/// Different wire buttons name different native buttons, and different wire
/// modes different native modes.
pub proof fn lemma_mouse_translation_injective(
    a: MiniFBMouseButton,
    b: MiniFBMouseButton,
    m: MiniFBMouseMode,
    n: MiniFBMouseMode,
)
    ensures
        a.native() == b.native() ==> a == b,
        m.native() == n.native() ==> m == n,
        a.wire_code() == b.wire_code() ==> a == b,
        m.wire_code() == n.wire_code() ==> m == n,
{
}

} // verus!

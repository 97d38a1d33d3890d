//! Window creation options and their translation to the native settings.

use crate::native::native_default_options;
use vstd::prelude::*;

verus! {

/// Window creation settings as they cross the boundary: five independent
/// toggles, every combination of which may be asked for.
#[derive(Debug, Clone, Copy, PartialEq, Eq, Structural)]
pub struct MiniFBWindowOptions {
    pub borderless: bool,
    pub title: bool,
    pub resize: bool,
    pub topmost: bool,
    pub transparency: bool,
}

impl MiniFBWindowOptions {
    /// The native settings these options ask for: the five toggles as given,
    /// everything else as the native defaults have it.
    pub open spec fn native(self) -> minifb::WindowOptions {
        minifb::WindowOptions {
            borderless: self.borderless,
            title: self.title,
            resize: self.resize,
            topmost: self.topmost,
            transparency: self.transparency,
            ..native_default_options()
        }
    }

    /// Translates these options to the native settings they ask for.
    pub fn to_minifb(&self) -> (options: minifb::WindowOptions)
        ensures
            options == self.native(),
    {
        minifb::WindowOptions {
            borderless: self.borderless,
            title: self.title,
            resize: self.resize,
            topmost: self.topmost,
            transparency: self.transparency,
            ..minifb::WindowOptions::default()
        }
    }
}

/// The baseline options: a title bar, and every other toggle off.
pub fn minifb_window_options_default() -> (options: MiniFBWindowOptions)
    ensures
        options == (MiniFBWindowOptions {
            borderless: false,
            title: true,
            resize: false,
            topmost: false,
            transparency: false,
        }),
{
    MiniFBWindowOptions {
        borderless: false,
        title: true,
        resize: false,
        topmost: false,
        transparency: false,
    }
}

/// The baseline options ask for exactly the native defaults.
pub proof fn lemma_default_options_are_native_defaults()
    ensures
        (MiniFBWindowOptions {
            borderless: false,
            title: true,
            resize: false,
            topmost: false,
            transparency: false,
        }).native() == native_default_options(),
{
}

} // verus!

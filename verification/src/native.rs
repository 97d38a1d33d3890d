//! What this library takes on trust from the native windowing crate.
//!
//! Every declaration in this file tells Verus something about `minifb` that
//! Verus does not prove. The enumerations and the settings record are read
//! from the crate as it defines them; the window and the error are opaque;
//! each method the library calls has the contract stated here and no other.
//!
//! A window answers a question from what it holds: the flags, keys, buttons,
//! positions and sizes that its last pump of events left in it. So the
//! answer to a question is a function of the window and of what is asked,
//! and has a name here. What a pump of events leaves in a window, and
//! whether a window opens or a buffer is shown, is the machine's and has no
//! name.

use crate::text::holds_nul;
use crate::window::size_is_addressable;
use vstd::prelude::*;
use vstd::string::StringSliceAdditionalSpecFns;

verus! {

/// The native key enumeration, with the variants `minifb` gives it.
#[verifier::external_type_specification]
pub struct ExNativeKey(minifb::Key);

/// The native choice between reporting a held key once or repeatedly, with
/// the variants `minifb` gives it.
#[verifier::external_type_specification]
pub struct ExNativeKeyRepeat(minifb::KeyRepeat);

/// The native mouse buttons, with the variants `minifb` gives them.
#[verifier::external_type_specification]
pub struct ExNativeMouseButton(minifb::MouseButton);

/// The native mouse coordinate modes, with the variants `minifb` gives them.
#[verifier::external_type_specification]
pub struct ExNativeMouseMode(minifb::MouseMode);

/// The native window scale factors, with the variants `minifb` gives them.
#[verifier::external_type_specification]
pub struct ExNativeScale(minifb::Scale);

/// The native buffer scaling modes, with the variants `minifb` gives them.
#[verifier::external_type_specification]
pub struct ExNativeScaleMode(minifb::ScaleMode);

/// The native preference for GPU presentation, with the variants `minifb`
/// gives it.
#[verifier::external_type_specification]
pub struct ExNativeUseGpu(minifb::UseGPU);

/// The native window creation settings, with the public fields `minifb`
/// gives them.
#[verifier::external_type_specification]
pub struct ExNativeWindowOptions(minifb::WindowOptions);

/// The native window. Nothing in it is visible to this library.
#[verifier::external_type_specification]
#[verifier::external_body]
pub struct ExNativeWindow(minifb::Window);

/// The native error. Nothing in it is visible to this library; its text is
/// had through [`error_text`].
#[verifier::external_type_specification]
#[verifier::external_body]
pub struct ExNativeError(minifb::Error);

/// The settings `minifb` documents as the defaults of `WindowOptions`: a
/// window with a title bar, not resizable, not borderless, not topmost, not
/// transparent, shown at its own size, its buffer stretched to the window,
/// and the GPU used where one is usable.
pub open spec fn native_default_options() -> minifb::WindowOptions {
    minifb::WindowOptions {
        borderless: false,
        title: true,
        resize: false,
        scale: minifb::Scale::X1,
        scale_mode: minifb::ScaleMode::Stretch,
        topmost: false,
        use_gpu: minifb::UseGPU::Auto,
        transparency: false,
        none: false,
    }
}

/// `WindowOptions::default()` returns the documented defaults.
pub assume_specification[ <minifb::WindowOptions as Default>::default ]() -> (options:
    minifb::WindowOptions)
    ensures
        options == native_default_options(),
;

/// `Window::new` opens a window or reports why it could not.
///
/// Left out are the inputs on which it does not return: a name with a zero
/// byte, which the Wayland path unwraps into a C string; a width or a
/// height that is zero, or that the X11 path would cut down to zero or to
/// another size where it hands it to the X server in sixteen bits, since the
/// X server refuses a zero size with an error that ends the process; a size
/// whose pixel buffer the X11 path cannot lay out; and every scale but `X1`,
/// since the X11 path multiplies the size by the scale before it lays the
/// buffer out, and looks for a fitting scale without end where the size is
/// zero. Whether a window opens is up to the machine, with one exception
/// that `minifb` decides before it asks the machine: a transparent window
/// must be borderless.
pub assume_specification[ minifb::Window::new ](
    name: &str,
    width: usize,
    height: usize,
    opts: minifb::WindowOptions,
) -> (outcome: minifb::Result<minifb::Window>)
    requires
        !holds_nul(name.spec_bytes()),
        size_is_addressable(width, height),
        opts.scale is X1,
    ensures
        opts.transparency && !opts.borderless ==> outcome is Err,
;

/// The window that `Window::set_title` leaves, given the window it found
/// and the bytes of the title.
pub uninterp spec fn native_titled(window: minifb::Window, title: Seq<u8>) -> minifb::Window;

/// `Window::set_title` changes the title, and what it leaves depends on
/// nothing but the window and the title. A title with a zero byte is left
/// out: the Wayland path unwraps it into a C string.
pub assume_specification[ minifb::Window::set_title ](window: &mut minifb::Window, title: &str)
    requires
        !holds_nul(title.spec_bytes()),
    ensures
        *final(window) == native_titled(*old(window), title.spec_bytes()),
;

/// `Window::update_with_buffer` shows a buffer of `width` by `height` pixels
/// and pumps events. It refuses an empty buffer and one that holds fewer
/// than `width * height` pixels; the machine may refuse others.
pub assume_specification[ minifb::Window::update_with_buffer ](
    window: &mut minifb::Window,
    buffer: &[u32],
    width: usize,
    height: usize,
) -> (outcome: minifb::Result<()>)
    ensures
        buffer@.len() == 0 || buffer@.len() < width * height ==> outcome is Err,
;

/// `Window::update` pumps events. Nothing is known of the window afterwards.
pub assume_specification[ minifb::Window::update ](window: &mut minifb::Window)
;

/// Whether a window holds that it has not been closed.
pub uninterp spec fn native_is_open(window: minifb::Window) -> bool;

/// `Window::is_open` reads the flag that the last pump of events left in the
/// window.
pub assume_specification[ minifb::Window::is_open ](window: &minifb::Window) -> (open: bool)
    ensures
        open == native_is_open(*window),
;

/// The width and the height that a window holds as its current size.
pub uninterp spec fn native_size(window: minifb::Window) -> (usize, usize);

/// `Window::get_size` reads the width and the height that the window holds,
/// in that order.
pub assume_specification[ minifb::Window::get_size ](window: &minifb::Window) -> (size: (
    usize,
    usize,
))
    ensures
        size == native_size(*window),
;

/// The window that `Window::set_target_fps` leaves, given the window it
/// found and the frames per second.
pub uninterp spec fn native_paced(window: minifb::Window, fps: usize) -> minifb::Window;

/// `Window::set_target_fps` sets the pace of the event pump, for every
/// `fps`, and what it leaves depends on nothing but the window and `fps`.
pub assume_specification[ minifb::Window::set_target_fps ](window: &mut minifb::Window, fps: usize)
    ensures
        *final(window) == native_paced(*old(window), fps),
;

/// The window that `Window::set_background_color` leaves, given the window
/// it found and the red, green and blue channels.
pub uninterp spec fn native_coloured(
    window: minifb::Window,
    red: u8,
    green: u8,
    blue: u8,
) -> minifb::Window;

/// `Window::set_background_color` sets the colour around the buffer, for
/// every value of the three channels, and what it leaves depends on nothing
/// but the window and the channels.
pub assume_specification[ minifb::Window::set_background_color ](
    window: &mut minifb::Window,
    red: u8,
    green: u8,
    blue: u8,
)
    ensures
        *final(window) == native_coloured(*old(window), red, green, blue),
;

/// Whether a window holds a key as held down.
pub uninterp spec fn native_key_down(window: minifb::Window, key: minifb::Key) -> bool;

/// `Window::is_key_down` reads the state of the key that the last pump of
/// events left in the window.
pub assume_specification[ minifb::Window::is_key_down ](
    window: &minifb::Window,
    key: minifb::Key,
) -> (down: bool)
    ensures
        down == native_key_down(*window, key),
;

/// Whether a window holds a key as pressed under a repeat mode: gone down
/// at its last pump of events, or, with repeat, due to repeat.
pub uninterp spec fn native_key_pressed(
    window: minifb::Window,
    key: minifb::Key,
    repeat: minifb::KeyRepeat,
) -> bool;

/// `Window::is_key_pressed` reads how long the key has been held at the last
/// pump of events, and answers from that and the repeat mode.
pub assume_specification[ minifb::Window::is_key_pressed ](
    window: &minifb::Window,
    key: minifb::Key,
    repeat: minifb::KeyRepeat,
) -> (pressed: bool)
    ensures
        pressed == native_key_pressed(*window, key, repeat),
;

/// Whether a window holds a key as released: held before its last pump of
/// events and not after it.
pub uninterp spec fn native_key_released(window: minifb::Window, key: minifb::Key) -> bool;

/// `Window::is_key_released` reads the state of the key before and after the
/// last pump of events.
pub assume_specification[ minifb::Window::is_key_released ](
    window: &minifb::Window,
    key: minifb::Key,
) -> (released: bool)
    ensures
        released == native_key_released(*window, key),
;

/// The keys that a window holds as held down, in the order in which
/// `Window::get_keys` lists them.
pub uninterp spec fn native_keys(window: minifb::Window) -> Seq<minifb::Key>;

/// `Window::get_keys` lists the keys that the last pump of events left held
/// in the window.
pub assume_specification[ minifb::Window::get_keys ](window: &minifb::Window) -> (keys: Vec<
    minifb::Key,
>)
    ensures
        keys@ == native_keys(*window),
;

/// Whether a window holds a mouse button as held down.
pub uninterp spec fn native_button_down(window: minifb::Window, button: minifb::MouseButton) -> bool;

/// `Window::get_mouse_down` reads the state of the button that the last pump
/// of events left in the window.
pub assume_specification[ minifb::Window::get_mouse_down ](
    window: &minifb::Window,
    button: minifb::MouseButton,
) -> (down: bool)
    ensures
        down == native_button_down(*window, button),
;

/// The mouse position that a window reports under a mode, x first, each
/// coordinate as the bit pattern of a 32-bit float; or nothing where it has
/// none to report under that mode.
pub uninterp spec fn native_position(window: minifb::Window, mode: minifb::MouseMode) -> Option<
    (u32, u32),
>;

/// Calls `Window::get_mouse_pos`, which works the position out from the
/// pointer coordinates and the size that the window holds and from the mode,
/// and hands each coordinate over as the bit pattern of the 32-bit float
/// that `minifb` reports, x first.
#[verifier::external_body]
pub(crate) fn native_mouse_pos(window: &minifb::Window, mode: minifb::MouseMode) -> (position:
    Option<(u32, u32)>)
    ensures
        position == native_position(*window, mode),
{
    window.get_mouse_pos(mode).map(|(x, y)| (x.to_bits(), y.to_bits()))
}

/// The scroll movement that a window reports, x first, each component as the
/// bit pattern of a 32-bit float; or nothing where it holds none.
pub uninterp spec fn native_scroll(window: minifb::Window) -> Option<(u32, u32)>;

/// Calls `Window::get_scroll_wheel`, which reads the movement that the last
/// pump of events left in the window, and hands each component over as the
/// bit pattern of the 32-bit float that `minifb` reports, x first.
#[verifier::external_body]
pub(crate) fn native_scroll_wheel(window: &minifb::Window) -> (movement: Option<(u32, u32)>)
    ensures
        movement == native_scroll(*window),
{
    window.get_scroll_wheel().map(|(x, y)| (x.to_bits(), y.to_bits()))
}

/// The text that the `Debug` impl of a native error writes for it.
pub uninterp spec fn native_error_text(error: minifb::Error) -> Seq<char>;

/// Formats a native error with its `Debug` impl, which writes the same text
/// as `Display` and, for an error with a payload, the payload after it, and
/// so depends on nothing but the error. The text is never empty: every
/// variant starts with words of its own.
#[verifier::external_body]
pub(crate) fn error_text(error: &minifb::Error) -> (text: String)
    ensures
        text@ == native_error_text(*error),
        text@.len() > 0,
{
    format!("{:?}", error)
}

} // verus!

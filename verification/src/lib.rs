//! A boundary layer between a caller that speaks a C calling convention and
//! the `minifb` windowing library.
//!
//! A caller on the far side of the boundary has pointers that may be null,
//! integer codes for keys and buttons, byte strings for text, and return
//! values to check. This library takes what such a caller has in a shape
//! that safe code can hold (an optional reference for a pointer, a slice for
//! a pointer and a length, the bytes of a string) and decides what each
//! operation does with it: what is refused before the native library is
//! asked, what is handed to the native library, and how the native answer
//! is reported. No function here asks anything of its caller: whatever is
//! passed, it returns, and says what it did.
//!
//! The native library's own behaviour is taken on trust, as [`native`]
//! states it.

pub mod input;
pub mod key;
pub mod last_error;
pub mod mouse;
pub mod native;
pub mod options;
pub mod text;
pub mod window;

pub use input::{
    minifb_window_get_keys, minifb_window_get_mouse_down, minifb_window_get_mouse_down_by_code,
    minifb_window_get_mouse_pos, minifb_window_get_mouse_pos_by_code,
    minifb_window_get_scroll_wheel, minifb_window_is_key_down, minifb_window_is_key_down_by_code,
    minifb_window_is_key_pressed, minifb_window_is_key_pressed_by_code,
    minifb_window_is_key_released, minifb_window_is_key_released_by_code,
};
pub use key::MiniFBKey;
pub use last_error::{minifb_get_last_error, set_last_error, LastError};
pub use mouse::{MiniFBMouseButton, MiniFBMouseMode};
pub use options::{minifb_window_options_default, MiniFBWindowOptions};
pub use window::{
    minifb_window_free, minifb_window_get_size, minifb_window_is_open, minifb_window_new,
    minifb_window_set_background_color, minifb_window_set_target_fps, minifb_window_set_title,
    minifb_window_update, minifb_window_update_with_buffer, MiniFBWindow,
};

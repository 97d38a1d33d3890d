//! Window handles and the operations on a window's life, size, title and
//! pixels.

use crate::last_error::{recorded, set_last_error, LastError};
use crate::native::{
    error_text, native_coloured, native_error_text, native_is_open, native_paced, native_size,
    native_titled,
};
use crate::options::MiniFBWindowOptions;
use crate::text::{decode_text, is_text};
use vstd::prelude::*;

verus! {

/// The status of a buffer update that was shown.
pub const MINIFB_OK: i32 = 0;

/// The status of a buffer update that failed.
pub const MINIFB_ERROR: i32 = -1;

/// A window handle: the native window, and the width and height it was
/// created with.
///
/// A handle has one owner. Creation hands it out, and destruction takes it
/// back; between the two the owner lends it to the other operations.
pub struct MiniFBWindow {
    window: minifb::Window,
    width: usize,
    height: usize,
}

impl MiniFBWindow {
    /// The native window this handle owns.
    pub closed spec fn native(&self) -> minifb::Window {
        self.window
    }

    /// The width the window was created with.
    pub closed spec fn recorded_width(&self) -> usize {
        self.width
    }

    /// The height the window was created with.
    pub closed spec fn recorded_height(&self) -> usize {
        self.height
    }

    /// Lends the native window to the operations that poll it.
    pub(crate) fn native_window(&self) -> (window: &minifb::Window)
        ensures
            *window == self.native(),
    {
        &self.window
    }

    /// The width and height the window was created with.
    pub fn recorded_size(&self) -> (size: (usize, usize))
        ensures
            size.0 == self.recorded_width(),
            size.1 == self.recorded_height(),
    {
        (self.width, self.height)
    }
}

/// The most pixels a window can have each way: what the narrowest native
/// path carries a width or a height in, which is sixteen bits.
pub const MAX_DIMENSION: usize = 65535;

/// Whether the native library can show a window of this size and lay out
/// its pixel buffer: the window has at least one pixel and at most
/// [`MAX_DIMENSION`] each way, and at four bytes a pixel a row of it stays
/// within `i32::MAX` bytes and the whole of it within `isize::MAX` bytes.
pub open spec fn size_is_addressable(width: usize, height: usize) -> bool {
    &&& 1 <= width <= MAX_DIMENSION
    &&& 1 <= height <= MAX_DIMENSION
    &&& width * 4 <= i32::MAX
    &&& width * height * 4 <= isize::MAX
}

/// Tests [`size_is_addressable`].
pub fn is_addressable(width: usize, height: usize) -> (fits: bool)
    ensures
        fits == size_is_addressable(width, height),
{
    if width == 0 || height == 0 || width > MAX_DIMENSION || height > MAX_DIMENSION {
        return false;
    }
    match width.checked_mul(height) {
        Some(pixels) => {
            match pixels.checked_mul(4) {
                Some(bytes) => bytes <= isize::MAX as usize,
                None => false,
            }
        },
        None => {
            assert(width * height * 4 >= width * height) by (nonlinear_arith)
                requires
                    width * height >= 0,
            ;
            false
        },
    }
}

/// Whether a creation has a name that is text, and options.
pub open spec fn has_name_and_options(
    name: Option<&[u8]>,
    opts: Option<&MiniFBWindowOptions>,
) -> bool {
    &&& opts is Some
    &&& name matches Some(bytes)
    &&& is_text(bytes@)
}

/// How many pixels a buffer of `width` by `height` holds, where a buffer can
/// hold that many: at four bytes a pixel, no buffer is longer than
/// `isize::MAX` bytes.
pub open spec fn buffer_pixels(width: usize, height: usize) -> Option<usize> {
    if width * height * 4 <= isize::MAX {
        Some((width * height) as usize)
    } else {
        None
    }
}

/// Works out how many pixels a buffer of the declared width and height
/// holds. Where no buffer can hold that many there is no such buffer, and so
/// no count.
pub fn pixel_count(width: usize, height: usize) -> (count: Option<usize>)
    ensures
        count == buffer_pixels(width, height),
        count is Some <==> width * height * 4 <= isize::MAX,
        count matches Some(n) ==> n == width * height,
{
    match width.checked_mul(height) {
        Some(pixels) => {
            match pixels.checked_mul(4) {
                Some(bytes) => {
                    if bytes <= isize::MAX as usize {
                        Some(pixels)
                    } else {
                        None
                    }
                },
                None => None,
            }
        },
        None => {
            assert(width * height * 4 >= width * height) by (nonlinear_arith)
                requires
                    width * height >= 0,
            ;
            None
        },
    }
}

/// The description that is recorded when a window is asked for whose size
/// cannot be shown.
pub open spec fn size_refusal() -> Seq<char> {
    "Failed to create window: the size is zero or too large"@
}

/// Whether a slot holds what recording some failure leaves in it: the
/// record of a description that is not empty.
pub open spec fn holds_a_failure(slot: Option<Seq<char>>) -> bool {
    exists|text: Seq<char>| text.len() > 0 && slot == #[trigger] recorded(text)
}

/// Whether a slot holds what recording a native failure leaves in it: the
/// record of the text of some native error.
pub open spec fn holds_a_native_failure(slot: Option<Seq<char>>) -> bool {
    exists|error: minifb::Error| slot == recorded(#[trigger] native_error_text(error))
}

/// Creates a window with a title, a size and options.
///
/// Without a name, without options, or with a name that is not text, nothing
/// is attempted: there is no handle, and the last error stays as it was.
/// A size that cannot be shown, because it is zero one way or too large, is
/// refused here, with a description of its own in the last error. Otherwise
/// the native library is asked for a window with that title and size and
/// with the native settings the options ask for. If it opens one, the handle
/// owns it and records the size, and the last error stays as it was. If it
/// does not, there is no handle and the last error is overwritten with the
/// text of the native library's error. A transparent window that is not
/// borderless is never opened.
pub fn minifb_window_new(
    name: Option<&[u8]>,
    width: usize,
    height: usize,
    opts: Option<&MiniFBWindowOptions>,
    last_error: &mut LastError,
) -> (handle: Option<MiniFBWindow>)
    ensures
        !has_name_and_options(name, opts) ==> handle is None && final(last_error)@ == old(
            last_error,
        )@,
        has_name_and_options(name, opts) && !size_is_addressable(width, height) ==> handle
            is None && final(last_error)@ == Some(size_refusal()),
        handle matches Some(h) ==> {
            &&& h.recorded_width() == width
            &&& h.recorded_height() == height
            &&& final(last_error)@ == old(last_error)@
        },
        has_name_and_options(name, opts) && handle is None ==> holds_a_failure(
            final(last_error)@,
        ),
        has_name_and_options(name, opts) && size_is_addressable(width, height) && handle
            is None ==> holds_a_native_failure(final(last_error)@),
        opts matches Some(o) && o.transparency && !o.borderless ==> handle is None,
{
    let name = match name {
        Some(bytes) => bytes,
        None => {
            return None;
        },
    };
    let opts = match opts {
        Some(o) => o,
        None => {
            return None;
        },
    };
    let title = match decode_text(name) {
        Some(text) => text,
        None => {
            return None;
        },
    };
    if !is_addressable(width, height) {
        proof {
            lemma_size_refusal_is_kept();
        }
        set_last_error(last_error, "Failed to create window: the size is zero or too large");
        return None;
    }
    match minifb::Window::new(title, width, height, opts.to_minifb()) {
        Ok(window) => window_from_outcome(Ok(window), width, height, last_error),
        Err(error) => {
            let handle = window_from_outcome(Err(error_text(&error)), width, height, last_error);
            assert(last_error@ == recorded(native_error_text(error)));
            handle
        },
    }
}

/// The description of a refused size holds no NUL character, so a slot keeps
/// it as it is.
pub proof fn lemma_size_refusal_is_kept()
    ensures
        size_refusal().len() > 0,
        recorded(size_refusal()) == Some(size_refusal()),
{
    reveal_strlit("Failed to create window: the size is zero or too large");
    let text = size_refusal();
    assert(text.len() == 54);
    assert forall|i: int| 0 <= i < text.len() implies text[i] != '\0' by {}
}

/// Turns the outcome of a native creation into a handle. A window becomes a
/// handle that owns it and records the size, and the last error stays as it
/// was. A failure gives no handle, and its description overwrites the last
/// error.
pub fn window_from_outcome(
    outcome: Result<minifb::Window, String>,
    width: usize,
    height: usize,
    last_error: &mut LastError,
) -> (handle: Option<MiniFBWindow>)
    ensures
        outcome matches Ok(window) ==> {
            &&& handle matches Some(h)
            &&& h.native() == window
            &&& h.recorded_width() == width
            &&& h.recorded_height() == height
            &&& final(last_error)@ == old(last_error)@
        },
        outcome matches Err(text) ==> {
            &&& handle is None
            &&& final(last_error)@ == recorded(text@)
        },
{
    match outcome {
        Ok(window) => Some(MiniFBWindow { window, width, height }),
        Err(text) => {
            set_last_error(last_error, text.as_str());
            None
        },
    }
}

/// Destroys a window: the handle is taken back and the native window it owns
/// is released. Without a handle nothing happens.
pub fn minifb_window_free(window: Option<MiniFBWindow>) {
    // The handle is owned here, so the native window is released where this
    // function ends.
}

/// Whether the window is still open: what the native window answers, and no
/// without a handle.
pub fn minifb_window_is_open(window: Option<&MiniFBWindow>) -> (open: bool)
    ensures
        window is None ==> !open,
        window matches Some(w) ==> open == native_is_open(w.native()),
{
    match window {
        Some(w) => w.window.is_open(),
        None => false,
    }
}

/// Pumps the window's pending events. The recorded size stays.
pub fn minifb_window_update(window: Option<&mut MiniFBWindow>)
    ensures
        window matches Some(w) ==> {
            &&& final(w).recorded_width() == w.recorded_width()
            &&& final(w).recorded_height() == w.recorded_height()
        },
{
    match window {
        Some(w) => {
            w.window.update();
        },
        None => {},
    }
}

/// The status that reports the outcome of a native buffer update.
pub fn update_status(outcome: Result<(), minifb::Error>) -> (status: i32)
    ensures
        outcome is Ok ==> status == MINIFB_OK,
        outcome is Err ==> status == MINIFB_ERROR,
{
    match outcome {
        Ok(_) => MINIFB_OK,
        Err(_) => MINIFB_ERROR,
    }
}

/// Shows a buffer of `width` by `height` pixels, one packed colour each, row
/// by row, and pumps the window's events.
///
/// Without a handle or without a buffer the update fails and nothing is
/// handed to the native library. An empty buffer, and one with fewer than
/// `width * height` pixels, fails too. Any other buffer is shown unless the
/// native library refuses it. The recorded size plays no part, and stays.
pub fn minifb_window_update_with_buffer(
    window: Option<&mut MiniFBWindow>,
    buffer: Option<&[u32]>,
    width: usize,
    height: usize,
) -> (status: i32)
    ensures
        status == MINIFB_OK || status == MINIFB_ERROR,
        window is None || buffer is None ==> status == MINIFB_ERROR,
        buffer matches Some(pixels) && (pixels@.len() == 0 || pixels@.len() < width * height)
            ==> status == MINIFB_ERROR,
        window matches Some(w) ==> {
            &&& final(w).recorded_width() == w.recorded_width()
            &&& final(w).recorded_height() == w.recorded_height()
            &&& buffer is None ==> *final(w) == *w
        },
{
    match window {
        Some(w) => {
            match buffer {
                Some(pixels) => update_status(w.window.update_with_buffer(pixels, width, height)),
                None => MINIFB_ERROR,
            }
        },
        None => MINIFB_ERROR,
    }
}

/// Writes a size to the two places given for it.
pub fn write_size(size: (usize, usize), out_width: &mut usize, out_height: &mut usize)
    ensures
        *final(out_width) == size.0,
        *final(out_height) == size.1,
{
    *out_width = size.0;
    *out_height = size.1;
}

/// Writes the window's current width and height, as the native window has
/// them now, to the places given for them: the width to the first and the
/// height to the second. The size recorded at creation plays no part.
/// Without a handle, or without either place, nothing is written.
pub fn minifb_window_get_size(
    window: Option<&MiniFBWindow>,
    out_width: Option<&mut usize>,
    out_height: Option<&mut usize>,
)
    ensures
        window is None || out_width is None || out_height is None ==> {
            &&& out_width matches Some(w) ==> *final(w) == *w
            &&& out_height matches Some(h) ==> *final(h) == *h
        },
        window matches Some(win) ==> (out_width matches Some(w) ==> (out_height matches Some(h)
            ==> {
            &&& *final(w) == native_size(win.native()).0
            &&& *final(h) == native_size(win.native()).1
        })),
{
    match (window, out_width, out_height) {
        (Some(w), Some(out_w), Some(out_h)) => {
            write_size(w.window.get_size(), out_w, out_h);
        },
        _ => {},
    }
}

/// Sets the window's title: with a title that is text, the native window
/// is the one that setting that title leaves. Without a handle, without a
/// title, or with a title that is not text, the window stays as it is. The
/// recorded size stays in any case.
pub fn minifb_window_set_title(window: Option<&mut MiniFBWindow>, title: Option<&[u8]>)
    ensures
        window matches Some(w) ==> {
            &&& final(w).recorded_width() == w.recorded_width()
            &&& final(w).recorded_height() == w.recorded_height()
            &&& !(title matches Some(bytes) && is_text(bytes@)) ==> *final(w) == *w
            &&& title matches Some(bytes) ==> (is_text(bytes@) ==> final(w).native()
                == native_titled(w.native(), bytes@))
        },
{
    match window {
        Some(w) => {
            match title {
                Some(bytes) => {
                    match decode_text(bytes) {
                        Some(text) => {
                            w.window.set_title(text);
                        },
                        None => {},
                    }
                },
                None => {},
            }
        },
        None => {},
    }
}

/// Sets the pace at which the window's event pump runs, in frames per
/// second: the native window is the one that setting that pace leaves. What
/// a value means is the native library's to say. The recorded size stays.
pub fn minifb_window_set_target_fps(window: Option<&mut MiniFBWindow>, fps: usize)
    ensures
        window matches Some(w) ==> {
            &&& final(w).recorded_width() == w.recorded_width()
            &&& final(w).recorded_height() == w.recorded_height()
            &&& final(w).native() == native_paced(w.native(), fps)
        },
{
    match window {
        Some(w) => {
            w.window.set_target_fps(fps);
        },
        None => {},
    }
}

/// Sets the colour that fills what the last buffer does not cover, from
/// three channels of 0 to 255 each: the native window is the one that
/// setting red, green and blue, in that order, leaves. The recorded size
/// stays.
pub fn minifb_window_set_background_color(
    window: Option<&mut MiniFBWindow>,
    red: u8,
    green: u8,
    blue: u8,
)
    ensures
        window matches Some(w) ==> {
            &&& final(w).recorded_width() == w.recorded_width()
            &&& final(w).recorded_height() == w.recorded_height()
            &&& final(w).native() == native_coloured(w.native(), red, green, blue)
        },
{
    match window {
        Some(w) => {
            w.window.set_background_color(red, green, blue);
        },
        None => {},
    }
}

} // verus!

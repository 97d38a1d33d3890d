//! Keyboard and mouse polling.

use crate::key::MiniFBKey;
use crate::mouse::{MiniFBMouseButton, MiniFBMouseMode};
use crate::native::{
    native_button_down, native_key_down, native_key_pressed, native_key_released, native_keys,
    native_mouse_pos, native_position, native_scroll, native_scroll_wheel,
};
use crate::window::MiniFBWindow;
use vstd::prelude::*;

verus! {

/// Whether the key is held down: what the native window answers for the
/// native key that `key` names, and no without a handle.
pub fn minifb_window_is_key_down(window: Option<&MiniFBWindow>, key: MiniFBKey) -> (down: bool)
    ensures
        window is None ==> !down,
        window matches Some(w) ==> down == native_key_down(w.native(), key.native()),
{
    match window {
        Some(w) => w.native_window().is_key_down(key.to_minifb()),
        None => false,
    }
}

/// The native repeat mode that a repeat flag asks for.
pub open spec fn repeat_mode(repeat: bool) -> minifb::KeyRepeat {
    if repeat {
        minifb::KeyRepeat::Yes
    } else {
        minifb::KeyRepeat::No
    }
}

/// Translates a repeat flag to the native repeat mode.
pub fn key_repeat(repeat: bool) -> (mode: minifb::KeyRepeat)
    ensures
        mode == repeat_mode(repeat),
{
    if repeat {
        minifb::KeyRepeat::Yes
    } else {
        minifb::KeyRepeat::No
    }
}

/// Whether the key went down since the last poll, or, with `repeat`, is
/// repeating while held: what the native window answers for the native key
/// that `key` names, asked with repeat exactly when `repeat` is set, and no
/// without a handle.
pub fn minifb_window_is_key_pressed(
    window: Option<&MiniFBWindow>,
    key: MiniFBKey,
    repeat: bool,
) -> (pressed: bool)
    ensures
        window is None ==> !pressed,
        window matches Some(w) ==> pressed == native_key_pressed(
            w.native(),
            key.native(),
            repeat_mode(repeat),
        ),
{
    match window {
        Some(w) => w.native_window().is_key_pressed(key.to_minifb(), key_repeat(repeat)),
        None => false,
    }
}

/// Whether the key went up since the last poll: what the native window
/// answers for the native key that `key` names, and no without a handle.
pub fn minifb_window_is_key_released(window: Option<&MiniFBWindow>, key: MiniFBKey) -> (released:
    bool)
    ensures
        window is None ==> !released,
        window matches Some(w) ==> released == native_key_released(w.native(), key.native()),
{
    match window {
        Some(w) => w.native_window().is_key_released(key.to_minifb()),
        None => false,
    }
}

/// How many keys are written when `held` keys are down, the caller allows
/// `max_keys`, and the array has room for `room`: as many as all three
/// allow.
pub open spec fn written_count(held: nat, max_keys: usize, room: nat) -> nat {
    let allowed = if held <= max_keys {
        held
    } else {
        max_keys as nat
    };
    if allowed <= room {
        allowed
    } else {
        room
    }
}

/// The array after the held keys were written to it: the wire codes of the
/// first keys, in the order the native library lists them, in front of what
/// the array held before from there on.
pub open spec fn keys_written(keys: Seq<minifb::Key>, before: Seq<i32>, max_keys: usize) -> Seq<
    i32,
> {
    let count = written_count(keys.len(), max_keys, before.len());
    Seq::new(
        before.len(),
        |i: int|
            if i < count {
                MiniFBKey::of_native(keys[i]).wire_code() as i32
            } else {
                before[i]
            },
    )
}

/// Writes the wire codes of held keys to an array and their number to
/// `out_count`. Keys beyond `max_keys`, and beyond the end of the array, are
/// dropped without a sign; the slots behind the last code written are not
/// touched.
pub fn write_keys(
    keys: &[minifb::Key],
    out_keys: &mut [i32],
    out_count: &mut usize,
    max_keys: usize,
)
    ensures
        *final(out_count) == written_count(keys@.len(), max_keys, old(out_keys)@.len()),
        final(out_keys)@ == keys_written(keys@, old(out_keys)@, max_keys),
{
    let mut count: usize = keys.len();
    if max_keys < count {
        count = max_keys;
    }
    if out_keys.len() < count {
        count = out_keys.len();
    }
    let mut i: usize = 0;
    while i < count
        invariant
            i <= count,
            count == written_count(keys@.len(), max_keys, old(out_keys)@.len()),
            out_keys@.len() == old(out_keys)@.len(),
            forall|j: int|
                0 <= j < i ==> out_keys@[j] == MiniFBKey::of_native(keys@[j]).wire_code(),
            forall|j: int| i <= j < out_keys@.len() ==> out_keys@[j] == old(out_keys)@[j],
        decreases count - i,
    {
        out_keys[i] = MiniFBKey::from_minifb(keys[i]).code();
        i = i + 1;
    }
    *out_count = count;
    assert(out_keys@ =~= keys_written(keys@, old(out_keys)@, max_keys));
}

/// Writes the wire codes of the keys that are held down to `out_keys`, in
/// the order the native library lists them, and their number to
/// `out_count`.
///
/// Without a handle, an array or a place for the count, the array is not
/// touched and the count, where there is a place for it, is zero. Otherwise
/// at most `max_keys` codes are written, and no more than the array has room
/// for; the keys beyond that are dropped without a sign. Every code written
/// is the code of a key or of `Unknown`, never that of the `Count` bound.
pub fn minifb_window_get_keys(
    window: Option<&MiniFBWindow>,
    out_keys: Option<&mut [i32]>,
    out_count: Option<&mut usize>,
    max_keys: usize,
)
    ensures
        window is None || out_keys is None || out_count is None ==> {
            &&& out_count matches Some(c) ==> *final(c) == 0
            &&& out_keys matches Some(k) ==> final(k)@ == k@
        },
        window matches Some(w) ==> (out_keys matches Some(k) ==> (out_count matches Some(c) ==> {
            &&& *final(c) == written_count(native_keys(w.native()).len(), max_keys, k@.len())
            &&& final(k)@ == keys_written(native_keys(w.native()), k@, max_keys)
        })),
        out_count matches Some(c) ==> *final(c) <= max_keys,
        max_keys == 0 ==> {
            &&& out_count matches Some(c) ==> *final(c) == 0
            &&& out_keys matches Some(k) ==> final(k)@ == k@
        },
{
    match (window, out_keys, out_count) {
        (Some(w), Some(k), Some(c)) => {
            let keys = w.native_window().get_keys();
            let ghost before = k@;
            write_keys(keys.as_slice(), k, c, max_keys);
            proof {
                if max_keys == 0 {
                    lemma_nothing_written_without_room(keys@, before, max_keys);
                }
            }
        },
        (_, _, Some(c)) => {
            *c = 0;
        },
        _ => {},
    }
}

/// With room for no key, the array stays as it was.
pub proof fn lemma_nothing_written_without_room(
    keys: Seq<minifb::Key>,
    before: Seq<i32>,
    max_keys: usize,
)
    requires
        max_keys == 0 || before.len() == 0,
    ensures
        written_count(keys.len(), max_keys, before.len()) == 0,
        keys_written(keys, before, max_keys) == before,
{
    assert(keys_written(keys, before, max_keys) =~= before);
}

/// Every code that is written is the code of a key or of `Unknown`, and the
/// slots behind the codes hold what they held.
pub proof fn lemma_written_codes_are_keys(
    keys: Seq<minifb::Key>,
    before: Seq<i32>,
    max_keys: usize,
    i: int,
)
    requires
        0 <= i < before.len(),
    ensures
        written_count(keys.len(), max_keys, before.len()) <= max_keys,
        written_count(keys.len(), max_keys, before.len()) <= keys.len(),
        keys_written(keys, before, max_keys).len() == before.len(),
        i < written_count(keys.len(), max_keys, before.len()) ==> 0 <= keys_written(
            keys,
            before,
            max_keys,
        )[i] <= MiniFBKey::Unknown.wire_code(),
        i >= written_count(keys.len(), max_keys, before.len()) ==> keys_written(
            keys,
            before,
            max_keys,
        )[i] == before[i],
{
}

/// Hands a pair of values over by writing it to the two places given for
/// it, and tells whether there was a pair. With no pair, nothing is written.
pub fn write_pair(value: Option<(u32, u32)>, out_x: &mut u32, out_y: &mut u32) -> (written: bool)
    ensures
        written == value is Some,
        value matches Some(pair) ==> *final(out_x) == pair.0 && *final(out_y) == pair.1,
        value is None ==> *final(out_x) == *old(out_x) && *final(out_y) == *old(out_y),
{
    match value {
        Some(pair) => {
            *out_x = pair.0;
            *out_y = pair.1;
            true
        },
        None => false,
    }
}

/// Writes the mouse position, as the native window reports it under the
/// native mode that `mode` names, to the places given for it, x to the first
/// and y to the second, and tells whether it did. Each coordinate is the bit
/// pattern of a 32-bit float, as it was reported.
///
/// Without a handle or without either place the answer is no. With all
/// three the answer is yes exactly when the native window has a position to
/// report. Whenever the answer is no, nothing is written.
pub fn minifb_window_get_mouse_pos(
    window: Option<&MiniFBWindow>,
    mode: MiniFBMouseMode,
    out_x: Option<&mut u32>,
    out_y: Option<&mut u32>,
) -> (written: bool)
    ensures
        window is None || out_x is None || out_y is None ==> !written,
        !written ==> {
            &&& out_x matches Some(x) ==> *final(x) == *x
            &&& out_y matches Some(y) ==> *final(y) == *y
        },
        window matches Some(w) ==> (out_x matches Some(x) ==> (out_y matches Some(y) ==> {
            let position = native_position(w.native(), mode.native());
            &&& written == position is Some
            &&& position matches Some(p) ==> *final(x) == p.0 && *final(y) == p.1
        })),
{
    match (window, out_x, out_y) {
        (Some(w), Some(x), Some(y)) => write_pair(
            native_mouse_pos(w.native_window(), mode.to_minifb()),
            x,
            y,
        ),
        _ => false,
    }
}

/// Whether the mouse button is held down: what the native window answers
/// for the native button that `button` names, and no without a handle.
pub fn minifb_window_get_mouse_down(
    window: Option<&MiniFBWindow>,
    button: MiniFBMouseButton,
) -> (down: bool)
    ensures
        window is None ==> !down,
        window matches Some(w) ==> down == native_button_down(w.native(), button.native()),
{
    match window {
        Some(w) => w.native_window().get_mouse_down(button.to_minifb()),
        None => false,
    }
}

/// Writes the scroll wheel movement since the last poll, as the native
/// window reports it, to the places given for it, x to the first and y to
/// the second, and tells whether it did. Each component is the bit pattern
/// of a 32-bit float, as it was reported.
///
/// Without a handle or without either place the answer is no. With all
/// three the answer is yes exactly when the native window has a movement to
/// report. Whenever the answer is no, nothing is written.
pub fn minifb_window_get_scroll_wheel(
    window: Option<&MiniFBWindow>,
    out_x: Option<&mut u32>,
    out_y: Option<&mut u32>,
) -> (written: bool)
    ensures
        window is None || out_x is None || out_y is None ==> !written,
        !written ==> {
            &&& out_x matches Some(x) ==> *final(x) == *x
            &&& out_y matches Some(y) ==> *final(y) == *y
        },
        window matches Some(w) ==> (out_x matches Some(x) ==> (out_y matches Some(y) ==> {
            let movement = native_scroll(w.native());
            &&& written == movement is Some
            &&& movement matches Some(m) ==> *final(x) == m.0 && *final(y) == m.1
        })),
{
    match (window, out_x, out_y) {
        (Some(w), Some(x), Some(y)) => write_pair(native_scroll_wheel(w.native_window()), x, y),
        _ => false,
    }
}

/// Whether the key that a wire code names is held down. A code that names
/// no key names none that is held: the answer is no. Otherwise the answer
/// is that of [`minifb_window_is_key_down`] for the key.
pub fn minifb_window_is_key_down_by_code(window: Option<&MiniFBWindow>, key: i32) -> (down: bool)
    ensures
        window is None || MiniFBKey::of_code(key) is None ==> !down,
        window matches Some(w) ==> (MiniFBKey::of_code(key) matches Some(k) ==> down
            == native_key_down(w.native(), k.native())),
{
    match MiniFBKey::from_code(key) {
        Some(k) => minifb_window_is_key_down(window, k),
        None => false,
    }
}

/// Whether the key that a wire code names went down since the last poll,
/// or, with `repeat`, is repeating while held. A code that names no key
/// gives no. Otherwise the answer is that of
/// [`minifb_window_is_key_pressed`] for the key.
pub fn minifb_window_is_key_pressed_by_code(
    window: Option<&MiniFBWindow>,
    key: i32,
    repeat: bool,
) -> (pressed: bool)
    ensures
        window is None || MiniFBKey::of_code(key) is None ==> !pressed,
        window matches Some(w) ==> (MiniFBKey::of_code(key) matches Some(k) ==> pressed
            == native_key_pressed(w.native(), k.native(), repeat_mode(repeat))),
{
    match MiniFBKey::from_code(key) {
        Some(k) => minifb_window_is_key_pressed(window, k, repeat),
        None => false,
    }
}

/// Whether the key that a wire code names went up since the last poll. A
/// code that names no key gives no. Otherwise the answer is that of
/// [`minifb_window_is_key_released`] for the key.
pub fn minifb_window_is_key_released_by_code(window: Option<&MiniFBWindow>, key: i32) -> (released:
    bool)
    ensures
        window is None || MiniFBKey::of_code(key) is None ==> !released,
        window matches Some(w) ==> (MiniFBKey::of_code(key) matches Some(k) ==> released
            == native_key_released(w.native(), k.native())),
{
    match MiniFBKey::from_code(key) {
        Some(k) => minifb_window_is_key_released(window, k),
        None => false,
    }
}

/// Whether the mouse button that a wire code names is held down. A code
/// that names no button gives no. Otherwise the answer is that of
/// [`minifb_window_get_mouse_down`] for the button.
pub fn minifb_window_get_mouse_down_by_code(window: Option<&MiniFBWindow>, button: i32) -> (down:
    bool)
    ensures
        window is None || MiniFBMouseButton::of_code(button) is None ==> !down,
        window matches Some(w) ==> (MiniFBMouseButton::of_code(button) matches Some(b)
            ==> down == native_button_down(w.native(), b.native())),
{
    match MiniFBMouseButton::from_code(button) {
        Some(b) => minifb_window_get_mouse_down(window, b),
        None => false,
    }
}

/// Writes the mouse position under the mode that a wire code names. A code
/// that names no mode gives no, and nothing is written. Otherwise the
/// answer and what is written are those of [`minifb_window_get_mouse_pos`]
/// for the mode.
pub fn minifb_window_get_mouse_pos_by_code(
    window: Option<&MiniFBWindow>,
    mode: i32,
    out_x: Option<&mut u32>,
    out_y: Option<&mut u32>,
) -> (written: bool)
    ensures
        window is None || out_x is None || out_y is None || MiniFBMouseMode::of_code(mode)
            is None ==> !written,
        !written ==> {
            &&& out_x matches Some(x) ==> *final(x) == *x
            &&& out_y matches Some(y) ==> *final(y) == *y
        },
        window matches Some(w) ==> (out_x matches Some(x) ==> (out_y matches Some(y) ==> (
        MiniFBMouseMode::of_code(mode) matches Some(m) ==> {
            let position = native_position(w.native(), m.native());
            &&& written == position is Some
            &&& position matches Some(p) ==> *final(x) == p.0 && *final(y) == p.1
        }))),
{
    match MiniFBMouseMode::from_code(mode) {
        Some(m) => minifb_window_get_mouse_pos(window, m, out_x, out_y),
        None => false,
    }
}

} // verus!

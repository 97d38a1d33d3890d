use minifb::Error;
use minifb_ffi::window::{
    is_addressable, pixel_count, update_status, window_from_outcome, write_size, MINIFB_ERROR,
    MINIFB_OK,
};
use minifb_ffi::{
    minifb_get_last_error, minifb_window_free, minifb_window_get_size, minifb_window_is_open,
    minifb_window_new, minifb_window_options_default, minifb_window_set_background_color,
    minifb_window_set_target_fps, minifb_window_set_title, minifb_window_update,
    minifb_window_update_with_buffer, set_last_error, LastError, MiniFBWindowOptions,
};

#[test]
fn creation_without_a_name_gives_no_handle() {
    let mut slot = LastError::new();
    let opts = minifb_window_options_default();
    let handle = minifb_window_new(None, 640, 480, Some(&opts), &mut slot);
    assert!(handle.is_none());
    assert_eq!(minifb_get_last_error(&slot), None);
}

#[test]
fn creation_without_options_gives_no_handle() {
    let mut slot = LastError::new();
    let handle = minifb_window_new(Some(b"Test"), 640, 480, None, &mut slot);
    assert!(handle.is_none());
    assert_eq!(minifb_get_last_error(&slot), None);
}

#[test]
fn creation_without_name_and_options_gives_no_handle() {
    let mut slot = LastError::new();
    let handle = minifb_window_new(None, 640, 480, None, &mut slot);
    assert!(handle.is_none());
    assert_eq!(minifb_get_last_error(&slot), None);
}

#[test]
fn creation_with_an_undecodable_name_gives_no_handle() {
    let mut slot = LastError::new();
    let opts = minifb_window_options_default();
    let handle = minifb_window_new(Some(&[0xff, 0xfe]), 640, 480, Some(&opts), &mut slot);
    assert!(handle.is_none());
    assert_eq!(minifb_get_last_error(&slot), None);
}

#[test]
fn creation_that_is_not_attempted_keeps_the_last_error() {
    let mut slot = LastError::new();
    set_last_error(&mut slot, "earlier failure");
    let opts = minifb_window_options_default();
    assert!(minifb_window_new(None, 640, 480, Some(&opts), &mut slot).is_none());
    assert_eq!(minifb_get_last_error(&slot), Some("earlier failure"));
    assert!(minifb_window_new(Some(b"Test"), 640, 480, None, &mut slot).is_none());
    assert_eq!(minifb_get_last_error(&slot), Some("earlier failure"));
    assert!(minifb_window_new(Some(&[0xc3]), 640, 480, Some(&opts), &mut slot).is_none());
    assert_eq!(minifb_get_last_error(&slot), Some("earlier failure"));
}

#[test]
fn a_transparent_window_with_a_border_is_refused_and_the_reason_recorded() {
    let mut slot = LastError::new();
    let opts = MiniFBWindowOptions {
        borderless: false,
        title: true,
        resize: false,
        topmost: false,
        transparency: true,
    };
    let handle = minifb_window_new(Some(b"Test"), 640, 480, Some(&opts), &mut slot);
    assert!(handle.is_none());
    assert_eq!(
        minifb_get_last_error(&slot),
        Some(
            "Failed to create window: Window transparency requires the borderless property, \
             \"Window transparency requires the borderless property\""
        )
    );
}

#[test]
fn a_size_that_cannot_be_laid_out_is_refused_and_the_reason_recorded() {
    let mut slot = LastError::new();
    let opts = minifb_window_options_default();
    let handle = minifb_window_new(Some(b"Test"), usize::MAX, usize::MAX, Some(&opts), &mut slot);
    assert!(handle.is_none());
    assert_eq!(
        minifb_get_last_error(&slot),
        Some("Failed to create window: the size is zero or too large")
    );
    set_last_error(&mut slot, "something else");
    let handle = minifb_window_new(Some(b"Test"), 0x2000_0000, 1, Some(&opts), &mut slot);
    assert!(handle.is_none());
    assert_eq!(
        minifb_get_last_error(&slot),
        Some("Failed to create window: the size is zero or too large")
    );
}

#[test]
fn a_window_wider_or_higher_than_sixteen_bits_is_refused() {
    let mut slot = LastError::new();
    let opts = minifb_window_options_default();
    let handle = minifb_window_new(Some(b"Test"), 65536, 1, Some(&opts), &mut slot);
    assert!(handle.is_none());
    assert_eq!(
        minifb_get_last_error(&slot),
        Some("Failed to create window: the size is zero or too large")
    );
    set_last_error(&mut slot, "something else");
    let handle = minifb_window_new(Some(b"Test"), 1, 65536, Some(&opts), &mut slot);
    assert!(handle.is_none());
    assert_eq!(
        minifb_get_last_error(&slot),
        Some("Failed to create window: the size is zero or too large")
    );
}

#[test]
fn a_missing_name_is_noticed_before_the_size() {
    let mut slot = LastError::new();
    let opts = minifb_window_options_default();
    assert!(minifb_window_new(None, usize::MAX, usize::MAX, Some(&opts), &mut slot).is_none());
    assert_eq!(minifb_get_last_error(&slot), None);
    assert!(minifb_window_new(Some(b"Test"), usize::MAX, usize::MAX, None, &mut slot).is_none());
    assert_eq!(minifb_get_last_error(&slot), None);
    assert!(minifb_window_new(Some(&[0xff]), usize::MAX, 2, Some(&opts), &mut slot).is_none());
    assert_eq!(minifb_get_last_error(&slot), None);
}

#[test]
fn a_second_failed_creation_overwrites_the_description() {
    let mut slot = LastError::new();
    set_last_error(&mut slot, "an unrelated earlier failure");
    let opts = MiniFBWindowOptions {
        borderless: false,
        title: false,
        resize: false,
        topmost: false,
        transparency: true,
    };
    let handle = minifb_window_new(Some(b"Again"), 320, 200, Some(&opts), &mut slot);
    assert!(handle.is_none());
    let text = minifb_get_last_error(&slot).expect("the failure is described");
    assert!(!text.is_empty());
    assert_ne!(text, "an unrelated earlier failure");
}

#[test]
fn a_window_of_640_by_480_reports_its_size_where_one_can_be_opened() {
    let mut slot = LastError::new();
    let opts = minifb_window_options_default();
    match minifb_window_new(Some(b"Test"), 640, 480, Some(&opts), &mut slot) {
        Some(handle) => {
            assert_eq!(handle.recorded_size(), (640, 480));
            let mut width = 0;
            let mut height = 0;
            minifb_window_get_size(Some(&handle), Some(&mut width), Some(&mut height));
            assert_eq!((width, height), (640, 480));
            assert_eq!(minifb_get_last_error(&slot), None);
            minifb_window_free(Some(handle));
        }
        None => {
            // No display to open a window on: the failure is described.
            let text = minifb_get_last_error(&slot).expect("the failure is described");
            assert!(!text.is_empty());
        }
    }
}

#[test]
fn a_buffer_of_the_windows_size_is_shown_where_a_window_can_be_opened() {
    let mut slot = LastError::new();
    let opts = minifb_window_options_default();
    if let Some(mut handle) = minifb_window_new(Some(b"Test"), 64, 48, Some(&opts), &mut slot) {
        let pixels = vec![0x00ff_8800u32; 64 * 48];
        let shown = minifb_window_update_with_buffer(Some(&mut handle), Some(&pixels), 64, 48);
        assert_eq!(shown, MINIFB_OK);
        let short = minifb_window_update_with_buffer(Some(&mut handle), Some(&pixels), 64, 49);
        assert_eq!(short, MINIFB_ERROR);
        let empty: [u32; 0] = [];
        let none = minifb_window_update_with_buffer(Some(&mut handle), Some(&empty), 0, 0);
        assert_eq!(none, MINIFB_ERROR);
        minifb_window_free(Some(handle));
    }
}

#[test]
fn a_native_failure_gives_no_handle_and_is_recorded() {
    let mut slot = LastError::new();
    let handle = window_from_outcome(Err("Failed to create window: boom".to_string()), 640, 480, &mut slot);
    assert!(handle.is_none());
    assert_eq!(minifb_get_last_error(&slot), Some("Failed to create window: boom"));
    let handle = window_from_outcome(Err("another reason".to_string()), 1, 1, &mut slot);
    assert!(handle.is_none());
    assert_eq!(minifb_get_last_error(&slot), Some("another reason"));
}

#[test]
fn a_native_failure_that_cannot_be_kept_empties_the_slot() {
    let mut slot = LastError::new();
    set_last_error(&mut slot, "earlier");
    let handle = window_from_outcome(Err("with \0 inside".to_string()), 640, 480, &mut slot);
    assert!(handle.is_none());
    assert_eq!(minifb_get_last_error(&slot), None);
}

#[test]
fn destroying_no_window_does_nothing() {
    minifb_window_free(None);
    minifb_window_free(None);
}

#[test]
fn no_window_is_not_open() {
    assert!(!minifb_window_is_open(None));
}

#[test]
fn updating_no_window_does_nothing() {
    minifb_window_update(None);
    minifb_window_set_title(None, Some(b"Title"));
    minifb_window_set_title(None, None);
    minifb_window_set_title(None, Some(&[0xff]));
    minifb_window_set_target_fps(None, 60);
    minifb_window_set_target_fps(None, 0);
    minifb_window_set_background_color(None, 255, 0, 128);
}

#[test]
fn a_buffer_update_without_a_window_or_a_buffer_fails() {
    let pixels = [0u32; 16];
    assert_eq!(minifb_window_update_with_buffer(None, Some(&pixels), 4, 4), -1);
    assert_eq!(minifb_window_update_with_buffer(None, None, 4, 4), -1);
    assert_eq!(minifb_window_update_with_buffer(None, Some(&pixels), 0, 0), MINIFB_ERROR);
}

#[test]
fn the_status_follows_the_native_outcome() {
    assert_eq!(MINIFB_OK, 0);
    assert_eq!(MINIFB_ERROR, -1);
    assert_eq!(update_status(Ok(())), 0);
    assert_eq!(update_status(Err(Error::UpdateFailed("too small".to_string()))), -1);
    assert_eq!(update_status(Err(Error::MenusNotSupported)), -1);
}

#[test]
fn the_size_of_no_window_leaves_the_outputs_alone() {
    let mut width = 11;
    let mut height = 22;
    minifb_window_get_size(None, Some(&mut width), Some(&mut height));
    assert_eq!((width, height), (11, 22));
    minifb_window_get_size(None, None, Some(&mut height));
    assert_eq!(height, 22);
    minifb_window_get_size(None, Some(&mut width), None);
    assert_eq!(width, 11);
    minifb_window_get_size(None, None, None);
}

#[test]
fn a_size_is_written_to_both_places() {
    let mut width = 0;
    let mut height = 0;
    write_size((640, 480), &mut width, &mut height);
    assert_eq!((width, height), (640, 480));
    write_size((1, usize::MAX), &mut width, &mut height);
    assert_eq!((width, height), (1, usize::MAX));
}

#[test]
fn sizes_within_the_limits_are_addressable() {
    assert!(is_addressable(640, 480));
    assert!(is_addressable(1, 1));
    assert!(is_addressable(65535, 1));
    assert!(is_addressable(1, 65535));
    assert!(is_addressable(3840, 2160));
    // The largest window of all has a buffer of some seventeen thousand
    // million bytes, which only a 64-bit machine can address.
    assert_eq!(is_addressable(65535, 65535), usize::BITS >= 64);
}

#[test]
fn a_size_of_zero_either_way_is_not_addressable() {
    assert!(!is_addressable(0, 0));
    assert!(!is_addressable(0, 480));
    assert!(!is_addressable(640, 0));
    assert!(!is_addressable(0, usize::MAX));
}

#[test]
fn a_window_of_no_size_is_refused_and_the_reason_recorded() {
    let mut slot = LastError::new();
    let opts = minifb_window_options_default();
    let handle = minifb_window_new(Some(b"Test"), 0, 0, Some(&opts), &mut slot);
    assert!(handle.is_none());
    assert_eq!(
        minifb_get_last_error(&slot),
        Some("Failed to create window: the size is zero or too large")
    );
    set_last_error(&mut slot, "something else");
    let handle = minifb_window_new(Some(b"Test"), 640, 0, Some(&opts), &mut slot);
    assert!(handle.is_none());
    assert_eq!(
        minifb_get_last_error(&slot),
        Some("Failed to create window: the size is zero or too large")
    );
}

#[test]
fn the_pixels_of_a_buffer_are_its_width_times_its_height() {
    assert_eq!(pixel_count(640, 480), Some(307200));
    assert_eq!(pixel_count(0, 480), Some(0));
    assert_eq!(pixel_count(640, 0), Some(0));
    assert_eq!(pixel_count(1, 1), Some(1));
    assert_eq!(pixel_count(1, (isize::MAX as usize) / 4), Some((isize::MAX as usize) / 4));
}

#[test]
fn no_buffer_holds_more_pixels_than_memory_can_address() {
    assert_eq!(pixel_count(1, (isize::MAX as usize) / 4 + 1), None);
    assert_eq!(pixel_count(usize::MAX, 2), None);
    assert_eq!(pixel_count(usize::MAX, usize::MAX), None);
    assert_eq!(pixel_count(2, usize::MAX / 2 + 1), None);
}

#[test]
fn sizes_beyond_the_limits_are_not_addressable() {
    assert!(!is_addressable(65536, 1));
    assert!(!is_addressable(1, 65536));
    assert!(!is_addressable(65536, 65536));
    assert!(!is_addressable(1, 1 << 16));
    assert!(!is_addressable(1, u32::MAX as usize));
    assert!(!is_addressable(1, (u32::MAX as usize).wrapping_add(1)));
    assert!(!is_addressable(0x1fff_ffff, 1));
    assert!(!is_addressable(1, (isize::MAX as usize) / 4));
    assert!(!is_addressable(0x2000_0000, 1));
    assert!(!is_addressable(usize::MAX, 1));
    assert!(!is_addressable(usize::MAX, usize::MAX));
    assert!(!is_addressable(1, (isize::MAX as usize) / 4 + 1));
    assert!(!is_addressable(2, usize::MAX));
    assert!(!is_addressable(0x1fff_ffff, usize::MAX / 2));
}

use minifb::{Scale, ScaleMode, UseGPU, WindowOptions};
use minifb_ffi::{minifb_window_options_default, MiniFBWindowOptions};

#[test]
fn test_window_options_default() {
    let opts = minifb_window_options_default();
    assert!(!opts.borderless);
    assert!(opts.title);
    assert!(!opts.resize);
    assert!(!opts.topmost);
    assert!(!opts.transparency);
}

#[test]
fn default_options_are_the_same_on_every_call() {
    assert_eq!(minifb_window_options_default(), minifb_window_options_default());
    assert_eq!(
        minifb_window_options_default(),
        MiniFBWindowOptions {
            borderless: false,
            title: true,
            resize: false,
            topmost: false,
            transparency: false,
        }
    );
}

#[test]
fn default_options_ask_for_the_native_defaults() {
    let native = minifb_window_options_default().to_minifb();
    let expected = WindowOptions::default();
    assert_eq!(native.borderless, expected.borderless);
    assert_eq!(native.title, expected.title);
    assert_eq!(native.resize, expected.resize);
    assert_eq!(native.topmost, expected.topmost);
    assert_eq!(native.transparency, expected.transparency);
    assert_eq!(native.none, expected.none);
    assert_eq!(native.scale_mode, expected.scale_mode);
    assert_eq!(native.use_gpu, expected.use_gpu);
    assert!(matches!(native.scale, Scale::X1));
    assert!(matches!(expected.scale, Scale::X1));
}

#[test]
fn the_five_toggles_reach_the_native_settings() {
    let opts = MiniFBWindowOptions {
        borderless: true,
        title: false,
        resize: true,
        topmost: true,
        transparency: true,
    };
    let native = opts.to_minifb();
    assert!(native.borderless);
    assert!(!native.title);
    assert!(native.resize);
    assert!(native.topmost);
    assert!(native.transparency);
    assert!(!native.none);
    assert!(matches!(native.scale, Scale::X1));
    assert_eq!(native.scale_mode, ScaleMode::Stretch);
    assert_eq!(native.use_gpu, UseGPU::Auto);
}

#[test]
fn each_toggle_is_independent() {
    let base = minifb_window_options_default();
    let borderless = MiniFBWindowOptions { borderless: true, ..base }.to_minifb();
    assert!(borderless.borderless && borderless.title && !borderless.resize);
    assert!(!borderless.topmost && !borderless.transparency);
    let resize = MiniFBWindowOptions { resize: true, ..base }.to_minifb();
    assert!(!resize.borderless && resize.title && resize.resize);
    assert!(!resize.topmost && !resize.transparency);
    let topmost = MiniFBWindowOptions { topmost: true, ..base }.to_minifb();
    assert!(!topmost.borderless && topmost.title && !topmost.resize);
    assert!(topmost.topmost && !topmost.transparency);
}

use minifb::Key;
use minifb_ffi::MiniFBKey;

#[test]
fn test_key_conversion() {
    // Test a few key conversions
    assert_eq!(MiniFBKey::from_minifb(Key::Escape), MiniFBKey::Escape);
    assert_eq!(MiniFBKey::Escape.to_minifb(), Key::Escape);
    assert_eq!(MiniFBKey::from_minifb(Key::Space), MiniFBKey::Space);
    assert_eq!(MiniFBKey::A.to_minifb(), Key::A);
}

#[test]
fn key_codes_are_positions_in_the_enumeration() {
    assert_eq!(MiniFBKey::Key0.code(), 0);
    assert_eq!(MiniFBKey::Key9.code(), 9);
    assert_eq!(MiniFBKey::A.code(), 10);
    assert_eq!(MiniFBKey::Z.code(), 35);
    assert_eq!(MiniFBKey::F1.code(), 36);
    assert_eq!(MiniFBKey::F15.code(), 50);
    assert_eq!(MiniFBKey::Down.code(), 51);
    assert_eq!(MiniFBKey::Up.code(), 54);
    assert_eq!(MiniFBKey::Escape.code(), 70);
    assert_eq!(MiniFBKey::Space.code(), 77);
    assert_eq!(MiniFBKey::NumPad0.code(), 86);
    assert_eq!(MiniFBKey::NumPadEnter.code(), 101);
    assert_eq!(MiniFBKey::RightSuper.code(), 105);
    assert_eq!(MiniFBKey::Unknown.code(), 106);
    assert_eq!(MiniFBKey::Count.code(), 107);
}

#[test]
fn every_code_reads_back_as_the_key_that_has_it() {
    for code in 0..=107 {
        let key = MiniFBKey::from_code(code).expect("a code of the enumeration names a key");
        assert_eq!(key.code(), code);
    }
}

#[test]
fn codes_outside_the_enumeration_name_no_key() {
    assert_eq!(MiniFBKey::from_code(-1), None);
    assert_eq!(MiniFBKey::from_code(108), None);
    assert_eq!(MiniFBKey::from_code(i32::MIN), None);
    assert_eq!(MiniFBKey::from_code(i32::MAX), None);
}

#[test]
fn every_real_key_names_the_native_key_with_its_code() {
    for code in 0..107 {
        let key = MiniFBKey::from_code(code).unwrap();
        let native = key.to_minifb();
        assert_eq!(native as i32, code);
        assert_ne!(native, Key::Count);
    }
}

#[test]
fn native_keys_survive_the_round_trip() {
    for code in 0..107 {
        let key = MiniFBKey::from_code(code).unwrap();
        let native = key.to_minifb();
        let back = MiniFBKey::from_minifb(native);
        assert_eq!(back, key);
        assert_eq!(back.to_minifb(), native);
    }
}

#[test]
fn count_collapses_to_unknown_in_both_directions() {
    assert_eq!(MiniFBKey::Count.to_minifb(), Key::Unknown);
    assert_eq!(MiniFBKey::Unknown.to_minifb(), Key::Unknown);
    assert_eq!(MiniFBKey::Count.to_minifb(), MiniFBKey::Unknown.to_minifb());
    assert_eq!(MiniFBKey::from_minifb(Key::Count), MiniFBKey::Unknown);
    assert_eq!(MiniFBKey::from_minifb(Key::Unknown), MiniFBKey::Unknown);
}

#[test]
fn named_keys_translate_by_name() {
    assert_eq!(MiniFBKey::Key0.to_minifb(), Key::Key0);
    assert_eq!(MiniFBKey::F12.to_minifb(), Key::F12);
    assert_eq!(MiniFBKey::LeftBracket.to_minifb(), Key::LeftBracket);
    assert_eq!(MiniFBKey::NumPadAsterisk.to_minifb(), Key::NumPadAsterisk);
    assert_eq!(MiniFBKey::RightSuper.to_minifb(), Key::RightSuper);
    assert_eq!(MiniFBKey::from_minifb(Key::Enter), MiniFBKey::Enter);
    assert_eq!(MiniFBKey::from_minifb(Key::LeftShift), MiniFBKey::LeftShift);
    assert_eq!(MiniFBKey::from_minifb(Key::PageDown), MiniFBKey::PageDown);
}

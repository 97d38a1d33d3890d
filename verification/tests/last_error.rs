use minifb_ffi::{minifb_get_last_error, set_last_error, LastError};

#[test]
fn a_new_slot_is_empty() {
    let slot = LastError::new();
    assert_eq!(minifb_get_last_error(&slot), None);
}

#[test]
fn a_recorded_description_is_handed_out() {
    let mut slot = LastError::new();
    set_last_error(&mut slot, "Failed to create window: no display");
    assert_eq!(minifb_get_last_error(&slot), Some("Failed to create window: no display"));
    // Reading does not clear the slot.
    assert_eq!(minifb_get_last_error(&slot), Some("Failed to create window: no display"));
}

#[test]
fn a_later_failure_overwrites_an_earlier_one() {
    let mut slot = LastError::new();
    set_last_error(&mut slot, "first");
    set_last_error(&mut slot, "second");
    assert_eq!(minifb_get_last_error(&slot), Some("second"));
}

#[test]
fn a_description_with_a_nul_character_empties_the_slot() {
    let mut slot = LastError::new();
    set_last_error(&mut slot, "kept");
    set_last_error(&mut slot, "bro\0ken");
    assert_eq!(minifb_get_last_error(&slot), None);
}

#[test]
fn an_empty_description_is_kept_as_it_is() {
    let mut slot = LastError::new();
    set_last_error(&mut slot, "");
    assert_eq!(minifb_get_last_error(&slot), Some(""));
}

#[test]
fn slots_are_independent() {
    let mut one = LastError::new();
    let two = LastError::new();
    set_last_error(&mut one, "only here");
    assert_eq!(minifb_get_last_error(&one), Some("only here"));
    assert_eq!(minifb_get_last_error(&two), None);
}

use chust8::input::Keypad;

#[test]
fn keypad_starts_with_no_key_down() {
    let keypad = Keypad::new();
    for hex in 0..=255u8 {
        assert!(!keypad.is_key_pressed(hex));
    }
    assert_eq!(keypad.wait_for_key_pressed(), None);
}

#[test]
fn keypad_reports_the_lowest_key() {
    let mut keypad = Keypad::new();
    keypad.set_key(0xC, true);
    assert_eq!(keypad.wait_for_key_pressed(), Some(0xC));
    keypad.set_key(0x3, true);
    assert_eq!(keypad.wait_for_key_pressed(), Some(0x3));
    assert!(keypad.is_key_pressed(0x3));
    assert!(keypad.is_key_pressed(0xC));
    assert!(!keypad.is_key_pressed(0x4));
    keypad.set_key(0x3, false);
    assert_eq!(keypad.wait_for_key_pressed(), Some(0xC));
    keypad.set_key(0xC, false);
    assert_eq!(keypad.wait_for_key_pressed(), None);
}

#[test]
fn keypad_ignores_numbers_that_name_no_key() {
    let mut keypad = Keypad::new();
    keypad.set_key(16, true);
    keypad.set_key(255, true);
    assert_eq!(keypad.wait_for_key_pressed(), None);
    assert!(!keypad.is_key_pressed(16));
    keypad.set_key(15, true);
    assert!(keypad.is_key_pressed(15));
    assert_eq!(keypad.wait_for_key_pressed(), Some(15));
}

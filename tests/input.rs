use vxl::resource::input::UserInput;

#[test]
fn keys_are_pressed_until_removed() {
    let mut input = UserInput::default();
    assert!(!input.is_key_pressed(32));
    input.add_key(32);
    input.add_key(17);
    assert!(input.is_key_pressed(32));
    assert!(input.is_key_pressed(17));
    input.remove_key(32);
    assert!(!input.is_key_pressed(32));
    assert!(input.is_key_pressed(17));
}

#[test]
fn adding_a_key_twice_needs_one_removal() {
    let mut input = UserInput::new();
    input.add_key(5);
    input.add_key(5);
    input.remove_key(5);
    assert!(!input.is_key_pressed(5));
    input.remove_key(5);
    assert!(!input.is_key_pressed(5));
}

use renoir::input::{Button, Delta, Modifiers, RawInput, RawKey, RawMouseButton, RenoirInput, PHYSICAL_KEY_COUNT};
use renoir::key_state::KeyState;
use renoir::keys::{Key, MouseBtn, KEY_COUNT, MOUSE_BTN_COUNT};

fn delta(x: f32, y: f32) -> Delta {
    Delta { x: x.to_bits(), y: y.to_bits() }
}

#[test]
fn key_state_queries_match_each_variant() {
    assert!(KeyState::JustPressed.pressed());
    assert!(KeyState::Pressed.pressed());
    assert!(!KeyState::JustReleased.pressed());
    assert!(!KeyState::Released.pressed());

    assert!(KeyState::JustPressed.just_pressed());
    assert!(!KeyState::Pressed.just_pressed());

    assert!(KeyState::JustReleased.released());
    assert!(KeyState::Released.released());
    assert!(!KeyState::Pressed.released());

    assert!(KeyState::JustReleased.just_released());
    assert!(!KeyState::Released.just_released());
}

#[test]
fn key_state_decay_settles_edges() {
    assert_eq!(KeyState::JustPressed.update(), KeyState::Pressed);
    assert_eq!(KeyState::Pressed.update(), KeyState::Pressed);
    assert_eq!(KeyState::JustReleased.update(), KeyState::Released);
    assert_eq!(KeyState::Released.update(), KeyState::Released);
}

#[test]
fn key_state_default_is_released() {
    assert_eq!(KeyState::default(), KeyState::Released);
    assert_eq!(KeyState::from_level(true), KeyState::JustPressed);
    assert_eq!(KeyState::from_level(false), KeyState::JustReleased);
}

#[test]
fn key_indices_are_dense_and_round_trip() {
    assert_eq!(KEY_COUNT, 198);
    assert_eq!(Key::COUNT, KEY_COUNT);
    assert_eq!(PHYSICAL_KEY_COUNT, 194);
    for i in 0..KEY_COUNT {
        let key = Key::from_repr(i).unwrap();
        assert_eq!(key.index(), i);
    }
    assert_eq!(Key::from_repr(KEY_COUNT), None);
    assert_eq!(Key::from_repr(usize::MAX), None);
    assert_eq!(Key::Backquote.index(), 0);
    assert_eq!(Key::A.index(), 19);
    assert_eq!(Key::D.index(), 22);
    assert_eq!(Key::F35.index(), 193);
    assert_eq!(Key::Shift.index(), 194);
    assert_eq!(Key::Logo.index(), 197);
}

#[test]
fn mouse_button_indices_round_trip() {
    assert_eq!(MOUSE_BTN_COUNT, 5);
    assert_eq!(MouseBtn::COUNT, 5);
    for i in 0..MOUSE_BTN_COUNT {
        assert_eq!(MouseBtn::from_repr(i).unwrap().index(), i);
    }
    assert_eq!(MouseBtn::from_repr(5), None);
    assert_eq!(MouseBtn::Right.index(), 1);
    assert_eq!(MouseBtn::Middle.index(), 2);
}

#[test]
fn new_input_has_everything_released() {
    let input = RenoirInput::new();
    for i in 0..KEY_COUNT {
        assert_eq!(input.get_key(Key::from_repr(i).unwrap()), KeyState::Released);
    }
    for i in 0..MOUSE_BTN_COUNT {
        assert_eq!(input.get_mouse_btn(MouseBtn::from_repr(i).unwrap()), KeyState::Released);
    }
    assert_eq!(input.get_mouse_delta(), Delta::zero());
    assert_eq!(input.get_scroll_delta(), Delta::zero());
    assert!(input.key_stream().is_empty());
}

#[test]
fn press_then_decay_walks_the_four_states() {
    let mut input = RenoirInput::new();
    input.set_key(RawKey::Code(Key::W.index()), true);
    assert_eq!(input.get_key(Key::W), KeyState::JustPressed);
    assert!(input.pressed(Key::W));
    assert!(input.just_pressed(Key::W));
    assert!(!input.released(Key::W));

    input.update();
    assert_eq!(input.get_key(Key::W), KeyState::Pressed);
    assert!(input.pressed(Key::W));
    assert!(!input.just_pressed(Key::W));
    for _ in 0..5 {
        input.update();
        assert_eq!(input.get_key(Key::W), KeyState::Pressed);
    }

    input.set_key(RawKey::Code(Key::W.index()), false);
    assert_eq!(input.get_key(Key::W), KeyState::JustReleased);
    assert!(input.released(Key::W));
    assert!(input.just_released(Key::W));

    input.update();
    assert_eq!(input.get_key(Key::W), KeyState::Released);
    assert!(!input.just_released(Key::W));
    for _ in 0..5 {
        input.update();
        assert_eq!(input.get_key(Key::W), KeyState::Released);
    }
}

#[test]
fn edge_overwrites_prior_state_of_the_frame() {
    let mut input = RenoirInput::new();
    input.set_edge(Button::Key(Key::Space), true);
    input.set_edge(Button::Key(Key::Space), false);
    assert_eq!(input.get_key(Key::Space), KeyState::JustReleased);
    assert_eq!(
        input.key_stream().clone(),
        vec![
            (Button::Key(Key::Space), KeyState::JustPressed),
            (Button::Key(Key::Space), KeyState::JustReleased),
        ]
    );
}

#[test]
fn edge_on_one_key_leaves_the_others() {
    let mut input = RenoirInput::new();
    input.set_key(RawKey::Code(Key::D.index()), true);
    for i in 0..KEY_COUNT {
        let key = Key::from_repr(i).unwrap();
        let expected = if i == Key::D.index() { KeyState::JustPressed } else { KeyState::Released };
        assert_eq!(input.get_key(key), expected);
    }
    assert_eq!(input.get_mouse_btn(MouseBtn::Left), KeyState::Released);
}

#[test]
fn unidentified_and_out_of_range_codes_are_dropped() {
    let mut input = RenoirInput::new();
    input.set_key(RawKey::Unidentified, true);
    input.set_key(RawKey::Code(KEY_COUNT), true);
    input.set_key(RawKey::Code(usize::MAX), true);
    for i in 0..KEY_COUNT {
        assert_eq!(input.get_key(Key::from_repr(i).unwrap()), KeyState::Released);
    }
    assert!(input.key_stream().is_empty());
}

#[test]
fn physical_codes_cannot_drive_synthetic_modifiers() {
    let mut input = RenoirInput::new();
    for code in PHYSICAL_KEY_COUNT..KEY_COUNT {
        input.set_key(RawKey::Code(code), true);
    }
    assert_eq!(input.get_key(Key::Shift), KeyState::Released);
    assert_eq!(input.get_key(Key::Ctrl), KeyState::Released);
    assert_eq!(input.get_key(Key::Alt), KeyState::Released);
    assert_eq!(input.get_key(Key::Logo), KeyState::Released);
    assert!(input.key_stream().is_empty());

    input.set_key(RawKey::Code(PHYSICAL_KEY_COUNT - 1), true);
    assert_eq!(input.get_key(Key::F35), KeyState::JustPressed);
    assert_eq!(RawKey::Code(PHYSICAL_KEY_COUNT - 1).key(), Some(Key::F35));
    assert_eq!(RawKey::Code(PHYSICAL_KEY_COUNT).key(), None);
    assert_eq!(RawKey::Unidentified.key(), None);
}

#[test]
fn modifiers_fire_on_level_change_only() {
    let mut input = RenoirInput::new();
    let shift_ctrl = Modifiers { shift: true, ctrl: true, alt: false, logo: false };
    input.set_mods(shift_ctrl);
    assert_eq!(input.get_key(Key::Shift), KeyState::JustPressed);
    assert_eq!(input.get_key(Key::Ctrl), KeyState::JustPressed);
    assert_eq!(input.get_key(Key::Alt), KeyState::Released);
    assert_eq!(input.get_key(Key::Logo), KeyState::Released);
    assert_eq!(
        input.key_stream().clone(),
        vec![
            (Button::Key(Key::Shift), KeyState::JustPressed),
            (Button::Key(Key::Ctrl), KeyState::JustPressed),
        ]
    );

    // The same levels again: no second edge.
    input.set_mods(shift_ctrl);
    assert_eq!(input.key_stream().len(), 2);

    input.update();
    assert_eq!(input.get_key(Key::Shift), KeyState::Pressed);
    input.set_mods(shift_ctrl);
    assert_eq!(input.get_key(Key::Shift), KeyState::Pressed);
    assert!(input.key_stream().is_empty());

    input.set_mods(Modifiers { shift: false, ctrl: true, alt: true, logo: true });
    assert_eq!(input.get_key(Key::Shift), KeyState::JustReleased);
    assert_eq!(input.get_key(Key::Ctrl), KeyState::Pressed);
    assert_eq!(input.get_key(Key::Alt), KeyState::JustPressed);
    assert_eq!(input.get_key(Key::Logo), KeyState::JustPressed);
    assert_eq!(
        input.key_stream().clone(),
        vec![
            (Button::Key(Key::Shift), KeyState::JustReleased),
            (Button::Key(Key::Alt), KeyState::JustPressed),
            (Button::Key(Key::Logo), KeyState::JustPressed),
        ]
    );
}

#[test]
fn physical_shift_and_modifier_shift_are_separate_buttons() {
    let mut input = RenoirInput::new();
    input.set_key(RawKey::Code(Key::ShiftLeft.index()), true);
    input.set_mods(Modifiers { shift: true, ctrl: false, alt: false, logo: false });
    assert_eq!(input.get_key(Key::ShiftLeft), KeyState::JustPressed);
    assert_eq!(input.get_key(Key::Shift), KeyState::JustPressed);
    assert_eq!(input.get_key(Key::ShiftRight), KeyState::Released);
    assert_eq!(input.key_stream().len(), 2);
}

#[test]
fn mouse_buttons_map_one_to_one() {
    let mut input = RenoirInput::new();
    input.set_mouse_button(true, RawMouseButton::Left);
    input.set_mouse_button(true, RawMouseButton::Right);
    input.set_mouse_button(false, RawMouseButton::Middle);
    input.set_mouse_button(true, RawMouseButton::Back);
    input.set_mouse_button(false, RawMouseButton::Forward);
    input.set_mouse_button(true, RawMouseButton::Other(9));
    assert_eq!(input.get_mouse_btn(MouseBtn::Left), KeyState::JustPressed);
    assert_eq!(input.get_mouse_btn(MouseBtn::Right), KeyState::JustPressed);
    assert_eq!(input.get_mouse_btn(MouseBtn::Middle), KeyState::JustReleased);
    assert_eq!(input.get_mouse_btn(MouseBtn::Back), KeyState::JustPressed);
    assert_eq!(input.get_mouse_btn(MouseBtn::Forward), KeyState::JustReleased);
    assert!(input.mouse_pressed(MouseBtn::Left));
    assert!(input.mouse_just_pressed(MouseBtn::Left));
    assert!(input.mouse_released(MouseBtn::Middle));
    assert!(input.mouse_just_released(MouseBtn::Middle));
    assert_eq!(input.key_stream().len(), 5);
    assert_eq!(RawMouseButton::Other(9).button(), None);
    assert_eq!(RawMouseButton::Back.button(), Some(MouseBtn::Back));

    input.update();
    assert_eq!(input.get_mouse_btn(MouseBtn::Left), KeyState::Pressed);
    assert_eq!(input.get_mouse_btn(MouseBtn::Middle), KeyState::Released);
    assert!(input.mouse_pressed(MouseBtn::Left));
    assert!(!input.mouse_just_pressed(MouseBtn::Left));
    assert!(!input.mouse_just_released(MouseBtn::Middle));
}

#[test]
fn motion_is_the_latest_sample_and_zero_after_decay() {
    let mut input = RenoirInput::new();
    input.set_cursor_delta(delta(1.5, -2.0));
    input.set_cursor_delta(delta(4.0, 0.25));
    input.set_scroll_delta(delta(0.0, 3.0));
    input.set_scroll_delta(delta(-1.0, 1.0));
    assert_eq!(input.get_mouse_delta(), delta(4.0, 0.25));
    assert_eq!(input.get_scroll_delta(), delta(-1.0, 1.0));
    assert_eq!(f32::from_bits(input.get_mouse_delta().x), 4.0);
    assert_eq!(f32::from_bits(input.get_mouse_delta().y), 0.25);

    input.update();
    assert_eq!(input.get_mouse_delta(), Delta::zero());
    assert_eq!(input.get_scroll_delta(), Delta::zero());
    assert_eq!(f32::from_bits(input.get_mouse_delta().x), 0.0);
    assert_eq!(f32::from_bits(input.get_scroll_delta().y), 0.0);

    input.set_key(RawKey::Code(3), true);
    assert_eq!(input.get_mouse_delta(), Delta::zero());
}

#[test]
fn decay_clears_the_key_stream_and_keeps_modifier_levels() {
    let mut input = RenoirInput::new();
    input.set_key(RawKey::Code(Key::H.index()), true);
    input.set_key(RawKey::Code(Key::I.index()), true);
    assert_eq!(
        input.key_stream().clone(),
        vec![
            (Button::Key(Key::H), KeyState::JustPressed),
            (Button::Key(Key::I), KeyState::JustPressed),
        ]
    );
    input.set_mods(Modifiers { shift: true, ctrl: false, alt: false, logo: false });
    input.update();
    assert!(input.key_stream().is_empty());
    // The level is remembered across the decay: releasing fires one edge.
    input.set_mods(Modifiers::empty());
    assert_eq!(input.key_stream().clone(), vec![(Button::Key(Key::Shift), KeyState::JustReleased)]);
}

#[test]
fn process_events_forwards_to_each_setter() {
    let mut a = RenoirInput::new();
    a.process_events(RawInput::Key(RawKey::Code(Key::Q.index()), true));
    a.process_events(RawInput::Modifiers(Modifiers { shift: false, ctrl: true, alt: false, logo: false }));
    a.process_events(RawInput::MouseButton(true, RawMouseButton::Right));
    a.process_events(RawInput::CursorMotion(delta(7.0, 8.0)));
    a.process_events(RawInput::Scroll(delta(0.5, -0.5)));
    assert_eq!(a.get_key(Key::Q), KeyState::JustPressed);
    assert_eq!(a.get_key(Key::Ctrl), KeyState::JustPressed);
    assert_eq!(a.get_mouse_btn(MouseBtn::Right), KeyState::JustPressed);
    assert_eq!(a.get_mouse_delta(), delta(7.0, 8.0));
    assert_eq!(a.get_scroll_delta(), delta(0.5, -0.5));
    assert_eq!(
        a.key_stream().clone(),
        vec![
            (Button::Key(Key::Q), KeyState::JustPressed),
            (Button::Key(Key::Ctrl), KeyState::JustPressed),
            (Button::Mouse(MouseBtn::Right), KeyState::JustPressed),
        ]
    );
}

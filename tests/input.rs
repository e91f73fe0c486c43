use arcade_engine::input::{
    action_pressed, horizontal_direction, mouse_delta, paddle_control, vertical_direction,
    PaddleControl, INPUT_ACTION, INPUT_DOWN, INPUT_LEFT, INPUT_RIGHT, INPUT_UP,
};

#[test]
fn bit_layout() {
    assert_eq!(INPUT_UP, 0b0000_0001);
    assert_eq!(INPUT_DOWN, 0b0000_0010);
    assert_eq!(INPUT_LEFT, 0b0000_0100);
    assert_eq!(INPUT_RIGHT, 0b0000_1000);
    assert_eq!(INPUT_ACTION, 0b0001_0000);
}

#[test]
fn directions_from_bits() {
    assert_eq!(vertical_direction(INPUT_UP), -1);
    assert_eq!(vertical_direction(INPUT_DOWN), 1);
    assert_eq!(vertical_direction(INPUT_UP | INPUT_DOWN), 0);
    assert_eq!(vertical_direction(0), 0);
    assert_eq!(horizontal_direction(INPUT_LEFT), -1);
    assert_eq!(horizontal_direction(INPUT_RIGHT), 1);
    assert_eq!(horizontal_direction(INPUT_LEFT | INPUT_RIGHT | INPUT_UP), 0);
    assert!(action_pressed(INPUT_ACTION | INPUT_LEFT));
    assert!(!action_pressed(INPUT_LEFT));
}

#[test]
fn mouse_delta_is_signed_upper_half() {
    assert_eq!(mouse_delta(0), 0);
    assert_eq!(mouse_delta(5 << 16), 5);
    assert_eq!(mouse_delta(((-3i16) as u16 as u32) << 16 | INPUT_LEFT), -3);
    assert_eq!(mouse_delta(0x8000_0000), i16::MIN);
    assert_eq!(mouse_delta(0x7fff_0000), i16::MAX);
}

#[test]
fn mouse_wins_over_keys() {
    assert_eq!(paddle_control((7 << 16) | INPUT_LEFT), PaddleControl::Mouse(7));
    assert_eq!(paddle_control(INPUT_LEFT), PaddleControl::Keys(-1));
    assert_eq!(paddle_control(INPUT_RIGHT), PaddleControl::Keys(1));
    assert_eq!(paddle_control(0), PaddleControl::Keys(0));
}

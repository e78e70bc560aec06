use motor_control::direction::{Direction, Vector2};
use motor_control::leds::{chase_frame, CHASE_INTENSITY, LED_CHANNEL_COUNT};
use motor_control::touch::decode_touch;

#[test]
fn clockwise_rotation_swaps_and_negates() {
    let rotated = Direction::Clockwise.rotate_vector_90_degrees(Vector2 { x: 2, y: 5 });
    assert_eq!(rotated, Vector2 { x: 5, y: -2 });
}

#[test]
fn counterclockwise_rotation_swaps_and_negates() {
    let rotated = Direction::Counterclockwise.rotate_vector_90_degrees(Vector2 { x: 2, y: 5 });
    assert_eq!(rotated, Vector2 { x: -5, y: 2 });
}

#[test]
fn colinear_rotation_is_identity() {
    let rotated = Direction::Colinear.rotate_vector_90_degrees(Vector2 { x: 2, y: 5 });
    assert_eq!(rotated, Vector2 { x: 2, y: 5 });
}

#[test]
fn default_direction_is_colinear() {
    assert_eq!(Direction::default(), Direction::Colinear);
}

#[test]
fn chase_frame_moves_the_lit_channel() {
    let mut intensities = vec![0u8; LED_CHANNEL_COUNT];
    intensities[3] = CHASE_INTENSITY;
    chase_frame(&mut intensities, 3);
    let mut expected = vec![0u8; LED_CHANNEL_COUNT];
    expected[4] = CHASE_INTENSITY;
    assert_eq!(intensities, expected);
}

#[test]
fn chase_frame_wraps_around() {
    let mut intensities = vec![0u8; LED_CHANNEL_COUNT];
    intensities[LED_CHANNEL_COUNT - 1] = CHASE_INTENSITY;
    chase_frame(&mut intensities, LED_CHANNEL_COUNT - 1);
    let mut expected = vec![0u8; LED_CHANNEL_COUNT];
    expected[0] = CHASE_INTENSITY;
    assert_eq!(intensities, expected);
}

#[test]
fn touch_flags_follow_the_low_bits() {
    assert_eq!(decode_touch(0b000), (false, false, false));
    assert_eq!(decode_touch(0b001), (true, false, false));
    assert_eq!(decode_touch(0b010), (false, true, false));
    assert_eq!(decode_touch(0b100), (false, false, true));
    assert_eq!(decode_touch(0b111), (true, true, true));
    // Higher bits carry no touch information.
    assert_eq!(decode_touch(0xF8), (false, false, false));
}

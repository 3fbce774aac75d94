use frame_input::AxisDelta;
use frame_input::ButtonId;
use frame_input::CursorMode;
use frame_input::Input;
use frame_input::InputError;
use frame_input::KeyCode;
use frame_input::RawEvent;

const WINDOW: (u32, u32) = (800, 600);

fn press(code: u32) -> RawEvent {
    RawEvent::Key { pressed: true, code: Some(KeyCode(code)) }
}

fn release(code: u32) -> RawEvent {
    RawEvent::Key { pressed: false, code: Some(KeyCode(code)) }
}

#[test]
fn new_defaults() {
    let input = Input::new();
    assert_eq!(input.pointer_position, (0, 0));
    assert_eq!(input.pointer_delta, (AxisDelta { num: 0, den: 1 }, AxisDelta { num: 0, den: 1 }));
    assert_eq!(input.raw_pointer_delta, (0, 0));
    assert_eq!(input.wheel_delta, (0, 0));
    assert!(input.keys_down.is_empty());
    assert!(input.keys_pressed.is_empty());
    assert!(input.keys_released.is_empty());
    assert!(input.text_input.is_empty());
    assert!(input.buttons_down.is_empty());
    assert!(input.buttons_pressed.is_empty());
    assert!(input.buttons_released.is_empty());
    assert!(input.hide_mouse);
    assert_eq!(input.cursor_mode, CursorMode::Free);
}

#[test]
fn default_matches_new() {
    let a = Input::new();
    let b = Input::default();
    assert_eq!(a.pointer_position, b.pointer_position);
    assert_eq!(a.keys_down, b.keys_down);
    assert_eq!(a.hide_mouse, b.hide_mouse);
    assert_eq!(a.cursor_mode, b.cursor_mode);
}

#[test]
fn press_single_key() {
    let mut input = Input::new();
    let batch = vec![press(65)];
    input.update_inputs(WINDOW, &batch);
    assert_eq!(input.keys_down, vec![KeyCode(65)]);
    assert_eq!(input.keys_pressed, vec![KeyCode(65)]);
    assert!(input.keys_released.is_empty());
}

#[test]
fn cursor_move_normalized_delta() {
    let mut input = Input::new();
    let batch = vec![RawEvent::CursorMoved { x: 200, y: 150 }];
    input.update_inputs(WINDOW, &batch);
    assert_eq!(input.pointer_delta.0, AxisDelta { num: 200, den: 800 });
    assert_eq!(input.pointer_delta.1, AxisDelta { num: 150, den: 600 });
    let dx = input.pointer_delta.0.num as f32 / input.pointer_delta.0.den as f32;
    let dy = input.pointer_delta.1.num as f32 / input.pointer_delta.1.den as f32;
    assert_eq!(dx, 0.25);
    assert_eq!(dy, 0.25);
    assert_eq!(input.pointer_position, (200, 150));
}

#[test]
fn press_then_release_same_batch() {
    let mut input = Input::new();
    let batch = vec![press(7), release(7)];
    input.update_inputs(WINDOW, &batch);
    assert!(input.keys_down.is_empty());
    assert_eq!(input.keys_pressed, vec![KeyCode(7)]);
    assert_eq!(input.keys_released, vec![KeyCode(7)]);
}

#[test]
fn unmentioned_key_unchanged() {
    let mut input = Input::new();
    input.update_inputs(WINDOW, &vec![press(1)]);
    input.update_inputs(WINDOW, &vec![press(2)]);
    assert!(input.keys_down.contains(&KeyCode(1)));
    assert!(input.keys_down.contains(&KeyCode(2)));
    assert_eq!(input.keys_pressed, vec![KeyCode(2)]);
    assert!(input.keys_released.is_empty());
}

fn populated_store() -> Input {
    let mut input = Input::new();
    let batch = vec![
        press(3),
        RawEvent::CursorMoved { x: 10, y: 20 },
        RawEvent::WheelLines { x_bits: 1.5f32.to_bits(), y_bits: 2.0f32.to_bits() },
        RawEvent::DeviceMotion { dx_bits: 0.5f32.to_bits(), dy_bits: 0.25f32.to_bits() },
        RawEvent::Text { ch: 'x' },
        RawEvent::Button { pressed: true, id: ButtonId(0) },
    ];
    input.update_inputs(WINDOW, &batch);
    input
}

#[test]
fn begin_frame_twice_equals_once() {
    let mut once = populated_store();
    let mut twice = populated_store();
    once.begin_frame();
    twice.begin_frame();
    twice.begin_frame();
    assert_eq!(once.pointer_position, twice.pointer_position);
    assert_eq!(once.pointer_delta, twice.pointer_delta);
    assert_eq!(once.raw_pointer_delta, twice.raw_pointer_delta);
    assert_eq!(once.wheel_delta, twice.wheel_delta);
    assert_eq!(once.keys_down, twice.keys_down);
    assert_eq!(once.keys_pressed, twice.keys_pressed);
    assert_eq!(once.keys_released, twice.keys_released);
    assert_eq!(once.text_input, twice.text_input);
    assert_eq!(once.buttons_down, twice.buttons_down);
    assert_eq!(once.buttons_pressed, twice.buttons_pressed);
    assert_eq!(once.buttons_released, twice.buttons_released);
    assert_eq!(once.hide_mouse, twice.hide_mouse);
    assert_eq!(once.cursor_mode, twice.cursor_mode);
}

#[test]
fn begin_frame_clears_only_transients() {
    let mut input = populated_store();
    input.begin_frame();
    assert_eq!(input.pointer_delta, (AxisDelta { num: 0, den: 1 }, AxisDelta { num: 0, den: 1 }));
    assert_eq!(input.raw_pointer_delta, (0, 0));
    assert_eq!(input.wheel_delta, (0, 0));
    assert!(input.keys_pressed.is_empty());
    assert!(input.keys_released.is_empty());
    assert!(input.text_input.is_empty());
    assert!(input.buttons_pressed.is_empty());
    assert!(input.buttons_released.is_empty());
    assert_eq!(input.keys_down, vec![KeyCode(3)]);
    assert_eq!(input.buttons_down, vec![ButtonId(0)]);
    assert_eq!(input.pointer_position, (10, 20));
    assert!(input.hide_mouse);
}

#[test]
fn round_trip_three_updates() {
    let mut input = Input::new();
    input.update_inputs(WINDOW, &vec![press(42)]);
    input.update_inputs(WINDOW, &vec![release(42)]);
    input.update_inputs(WINDOW, &vec![]);
    assert!(input.keys_down.is_empty());
    assert!(input.keys_pressed.is_empty());
    assert!(input.keys_released.is_empty());
}

#[test]
fn zero_extent_zero_delta() {
    let mut input = Input::new();
    let batch = vec![RawEvent::CursorMoved { x: 123, y: -45 }];
    input.update_inputs((0, 0), &batch);
    assert_eq!(input.pointer_delta, (AxisDelta { num: 0, den: 1 }, AxisDelta { num: 0, den: 1 }));
    assert_eq!(input.pointer_position, (123, -45));
}

#[test]
fn wheel_last_write_wins() {
    let mut input = Input::new();
    let batch = vec![
        RawEvent::WheelLines { x_bits: 0.0f32.to_bits(), y_bits: 1.0f32.to_bits() },
        RawEvent::WheelLines { x_bits: 0.0f32.to_bits(), y_bits: (-3.0f32).to_bits() },
    ];
    input.update_inputs(WINDOW, &batch);
    assert_eq!(input.wheel_delta, (0.0f32.to_bits(), (-3.0f32).to_bits()));
    assert_eq!(f32::from_bits(input.wheel_delta.1), -3.0);
}

#[test]
fn wheel_pixels_overwrite_lines() {
    let mut input = Input::new();
    let batch = vec![
        RawEvent::WheelLines { x_bits: 0.0f32.to_bits(), y_bits: 1.0f32.to_bits() },
        RawEvent::WheelPixels { x_bits: 12.0f32.to_bits(), y_bits: 8.0f32.to_bits() },
    ];
    input.update_inputs(WINDOW, &batch);
    assert_eq!(input.wheel_delta, (12.0f32.to_bits(), 8.0f32.to_bits()));
}

#[test]
fn device_motion_last_write_wins() {
    let mut input = Input::new();
    let batch = vec![
        RawEvent::DeviceMotion { dx_bits: 1.0f32.to_bits(), dy_bits: 1.0f32.to_bits() },
        RawEvent::DeviceMotion { dx_bits: 2.5f32.to_bits(), dy_bits: (-0.5f32).to_bits() },
    ];
    input.update_inputs(WINDOW, &batch);
    assert_eq!(input.raw_pointer_delta, (2.5f32.to_bits(), (-0.5f32).to_bits()));
    input.update_inputs(WINDOW, &vec![]);
    assert_eq!(input.raw_pointer_delta, (0, 0));
}

#[test]
fn text_input_in_order() {
    let mut input = Input::new();
    let batch = vec![RawEvent::Text { ch: 'h' }, RawEvent::Text { ch: 'i' }];
    input.update_inputs(WINDOW, &batch);
    assert_eq!(input.text_input, vec!['h', 'i']);
    input.update_inputs(WINDOW, &vec![]);
    assert!(input.text_input.is_empty());
}

#[test]
fn buttons_press_and_release() {
    let mut input = Input::new();
    let batch = vec![
        RawEvent::Button { pressed: true, id: ButtonId(0) },
        RawEvent::Button { pressed: true, id: ButtonId(2) },
    ];
    input.update_inputs(WINDOW, &batch);
    assert_eq!(input.buttons_down, vec![ButtonId(0), ButtonId(2)]);
    assert_eq!(input.buttons_pressed, vec![ButtonId(0), ButtonId(2)]);
    input.update_inputs(WINDOW, &vec![RawEvent::Button { pressed: false, id: ButtonId(0) }]);
    assert_eq!(input.buttons_down, vec![ButtonId(2)]);
    assert_eq!(input.buttons_released, vec![ButtonId(0)]);
    assert!(input.buttons_pressed.is_empty());
}

#[test]
fn release_without_press() {
    let mut input = Input::new();
    input.update_inputs(WINDOW, &vec![release(9)]);
    assert!(input.keys_down.is_empty());
    assert_eq!(input.keys_released, vec![KeyCode(9)]);
}

#[test]
fn repeat_press_passes_through() {
    let mut input = Input::new();
    input.update_inputs(WINDOW, &vec![press(5), press(5)]);
    assert_eq!(input.keys_pressed, vec![KeyCode(5), KeyCode(5)]);
    assert!(input.keys_down.contains(&KeyCode(5)));
    input.update_inputs(WINDOW, &vec![release(5)]);
    assert!(input.keys_down.is_empty());
}

#[test]
fn unresolvable_key_dropped() {
    let mut input = Input::new();
    input.update_inputs(WINDOW, &vec![RawEvent::Key { pressed: true, code: None }]);
    assert!(input.keys_down.is_empty());
    assert!(input.keys_pressed.is_empty());
    assert!(input.keys_released.is_empty());
}

#[test]
fn unhandled_event_ignored() {
    let mut input = Input::new();
    input.update_inputs(WINDOW, &vec![RawEvent::Unhandled, press(4)]);
    assert_eq!(input.keys_down, vec![KeyCode(4)]);
}

#[test]
fn reduce_accumulates_without_reset() {
    let mut input = Input::new();
    input.begin_frame();
    input.reduce(WINDOW, &vec![press(1)]);
    input.reduce(WINDOW, &vec![press(2)]);
    assert_eq!(input.keys_pressed, vec![KeyCode(1), KeyCode(2)]);
    assert_eq!(input.keys_down, vec![KeyCode(1), KeyCode(2)]);
}

#[test]
fn apply_event_reports_unmappable() {
    let mut input = Input::new();
    input.begin_frame();
    let r = input.apply_event(WINDOW, &RawEvent::Key { pressed: true, code: None });
    assert_eq!(r, Err(InputError::UnmappableEvent));
    assert!(input.keys_down.is_empty());
}

#[test]
fn apply_event_reports_zero_extent() {
    let mut input = Input::new();
    input.begin_frame();
    let r = input.apply_event((0, 600), &RawEvent::CursorMoved { x: 50, y: 60 });
    assert_eq!(r, Err(InputError::ConfigurationError));
    assert_eq!(input.pointer_delta.0, AxisDelta { num: 0, den: 1 });
    assert_eq!(input.pointer_delta.1, AxisDelta { num: 240, den: 600 });
    let r2 = input.apply_event(WINDOW, &RawEvent::CursorMoved { x: 50, y: 60 });
    assert_eq!(r2, Ok(()));
}

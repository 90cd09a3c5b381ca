use mctk::input::{Data, Key, MouseButton};
use mctk::pointer::{convert_button, mouse_button, scroll_unit, AxisSource, Button, ScrollUnit};

#[test]
fn evdev_codes_map_to_buttons() {
    assert_eq!(convert_button(0x110), Some(Button::Left));
    assert_eq!(convert_button(0x111), Some(Button::Right));
    assert_eq!(convert_button(0x112), Some(Button::Middle));
    assert_eq!(convert_button(0x113), None);
    assert_eq!(convert_button(0), None);
}

#[test]
fn data_from_text() {
    let d: Data = "hello".into();
    assert_eq!(d, Data::String("hello".to_string()));
}

#[test]
fn keys_and_buttons_compare() {
    assert_eq!(Key::Backspace, Key::Backspace);
    assert_ne!(Key::Left, Key::Right);
    assert_eq!(format!("{:?}", Key::NumPadEnter), "NumPadEnter");
    assert_ne!(MouseButton::Left, MouseButton::Right);
}

#[test]
fn pointer_buttons_become_mouse_buttons() {
    assert_eq!(mouse_button(Button::Left), MouseButton::Left);
    assert_eq!(mouse_button(Button::Right), MouseButton::Right);
    assert_eq!(mouse_button(Button::Middle), MouseButton::Middle);
}

#[test]
fn scroll_sources_pick_units() {
    assert_eq!(scroll_unit(AxisSource::Wheel), Some(ScrollUnit::Lines));
    assert_eq!(scroll_unit(AxisSource::WheelTilt), Some(ScrollUnit::Lines));
    assert_eq!(scroll_unit(AxisSource::Finger), Some(ScrollUnit::Pixels));
    assert_eq!(scroll_unit(AxisSource::Continuous), Some(ScrollUnit::Pixels));
    assert_eq!(scroll_unit(AxisSource::Other), None);
}

//! Raw pointer-device input, as reported by the windowing system: button
//! codes and the sources of scrolling.
use vstd::prelude::*;

use crate::input::MouseButton;

verus! {

#[derive(Debug, Clone, Copy, PartialEq, Eq, Structural)]
pub enum Button {
    Left,
    Right,
    Middle,
}

/// The button that a raw evdev button code stands for: `0x110` is the left
/// button, `0x111` the right one and `0x112` the middle one; other codes
/// stand for none of them.
pub fn convert_button(button: u32) -> (r: Option<Button>)
    ensures
        button == 0x110 <==> r == Some(Button::Left),
        button == 0x111 <==> r == Some(Button::Right),
        button == 0x112 <==> r == Some(Button::Middle),
        r is None <==> (button != 0x110 && button != 0x111 && button != 0x112),
{
    match button {
        0x110 => Some(Button::Left),
        0x111 => Some(Button::Right),
        0x112 => Some(Button::Middle),
        _ => None,
    }
}


/// The toolkit's mouse button for a pointer button.
pub fn mouse_button(button: Button) -> (r: MouseButton)
    ensures
        r == match button {
            Button::Left => MouseButton::Left,
            Button::Right => MouseButton::Right,
            Button::Middle => MouseButton::Middle,
        },
{
    match button {
        Button::Left => MouseButton::Left,
        Button::Right => MouseButton::Right,
        Button::Middle => MouseButton::Middle,
    }
}

/// What produced a scroll.
#[derive(Debug, Clone, Copy, PartialEq, Eq, Structural)]
pub enum AxisSource {
    Wheel,
    Finger,
    Continuous,
    WheelTilt,
    /// A source that the toolkit does not handle.
    Other,
}

/// The unit that a scroll amount is counted in.
#[derive(Debug, Clone, Copy, PartialEq, Eq, Structural)]
pub enum ScrollUnit {
    /// Discrete steps, such as the notches of a wheel.
    Lines,
    /// Logical pixels.
    Pixels,
}

/// The unit in which a scroll from `source` is reported: wheels, tilted or
/// not, scroll by lines; fingers and continuous devices by pixels; other
/// sources are ignored.
pub fn scroll_unit(source: AxisSource) -> (r: Option<ScrollUnit>)
    ensures
        r == Some(ScrollUnit::Lines) <==> (source is Wheel || source is WheelTilt),
        r == Some(ScrollUnit::Pixels) <==> (source is Finger || source is Continuous),
        r is None <==> source is Other,
{
    match source {
        AxisSource::Wheel => Some(ScrollUnit::Lines),
        AxisSource::Finger => Some(ScrollUnit::Pixels),
        AxisSource::Continuous => Some(ScrollUnit::Pixels),
        AxisSource::WheelTilt => Some(ScrollUnit::Lines),
        AxisSource::Other => None,
    }
}

} // verus!

//! What the toolkit takes from the device library and from the channels of
//! the standard library. The contracts in this file are believed, not proved.

use vstd::prelude::*;

use libremarkable::framebuffer::common::color;
use libremarkable::input::multitouch::MultitouchEvent;
use libremarkable::input::InputEvent;
use std::sync::mpsc::Receiver;

verus! {

/// The receiving end of a channel of the standard library.
#[verifier::external_type_specification]
#[verifier::external_body]
#[verifier::reject_recursive_types(T)]
pub struct ExReceiver<T>(Receiver<T>);

/// An input event as the device library decodes it.
#[verifier::external_type_specification]
#[verifier::external_body]
pub struct ExInputEvent(InputEvent);

/// What the window shell reads from a hardware input event.
#[derive(Clone, Copy, Debug, PartialEq, Eq, Structural)]
pub enum HardwareInput {
    /// A finger touched the panel at `(x, y)`.
    TouchPress { x: u16, y: u16 },
    /// A finger left the panel at `(x, y)`.
    TouchRelease { x: u16, y: u16 },
    /// A finger moved over the panel to `(x, y)`.
    TouchMove { x: u16, y: u16 },
    /// The stylus reported something.
    Stylus,
    /// A physical button reported something.
    Button,
    /// The device library could not decode the event.
    Unknown,
}

/// The two bytes of a pixel in the panel's encoding: five bits of red, six of
/// green and five of blue in one 16-bit word, low byte first.
pub open spec fn rgb565_le(red: u8, green: u8, blue: u8) -> (u8, u8) {
    let r5 = red as int / 8;
    let g6 = green as int / 4;
    let b5 = blue as int / 8;
    (((g6 % 8) * 32 + b5) as u8, (r5 * 8 + g6 / 8) as u8)
}

/// Calls `color::as_native` of libremarkable on `color::RGB(red, green, blue)`.
/// The contract restates its arithmetic: the channels are cut to 5, 6 and 5
/// bits and laid out as one little-endian 16-bit word.
#[verifier::external_body]
pub(crate) fn native_color(red: u8, green: u8, blue: u8) -> (pixel: (u8, u8))
    ensures
        pixel == rgb565_le(red, green, blue),
{
    let native = color::RGB(red, green, blue).as_native();
    (native[0], native[1])
}

/// Tells the variants of libremarkable's `InputEvent` apart and moves the
/// finger's position out of a touch event. Nothing is claimed of the result.
#[verifier::external_body]
pub(crate) fn hardware_input(event: &InputEvent) -> HardwareInput {
    match event {
        InputEvent::MultitouchEvent { event: MultitouchEvent::Press { finger } } =>
            HardwareInput::TouchPress { x: finger.pos.x, y: finger.pos.y },
        InputEvent::MultitouchEvent { event: MultitouchEvent::Release { finger } } =>
            HardwareInput::TouchRelease { x: finger.pos.x, y: finger.pos.y },
        InputEvent::MultitouchEvent { event: MultitouchEvent::Move { finger } } =>
            HardwareInput::TouchMove { x: finger.pos.x, y: finger.pos.y },
        InputEvent::MultitouchEvent { event: MultitouchEvent::Unknown } => HardwareInput::Unknown,
        InputEvent::WacomEvent { .. } => HardwareInput::Stylus,
        InputEvent::GPIO { .. } => HardwareInput::Button,
        InputEvent::Unknown {} => HardwareInput::Unknown,
    }
}

/// Calls `Receiver::try_iter` of the standard library and collects what it
/// yields: the messages that are in the channel now, oldest first, without
/// waiting. A closed channel yields nothing. Nothing is claimed of the result.
#[verifier::external_body]
pub(crate) fn pending<T>(receiver: &Receiver<T>) -> Vec<T> {
    receiver.try_iter().collect()
}

} // verus!

use vstd::prelude::*;
use crate::gpio::{opposite, Mode, OutputType, Parts, Pin, PinId, PinState, Port, Pull};
use crate::led::{led_pin, LED_INDEX};

verus! {

/// Number, within port B, of the pin that the button is wired to.
pub const BUTTON_INDEX: u8 = 11;

/// What the button's pin is: PB11, configured as an input with its pull-up
/// resistor on, so that a pressed button reads low.
pub open spec fn button_pin() -> PinId {
    PinId { port: Port::B, index: 11, mode: Mode::Input(Pull::PullUp) }
}

/// The pins that the button-check task owns.
pub struct Resources {
    pub button: Pin,
    pub led: Pin,
}

/// Takes the button's pin out of the parts of port B and configures it as a
/// pulled-up input, and takes the LED's pin out of the parts of port C and
/// configures it as a push-pull output.
pub fn init(gpiob: Parts, gpioc: Parts) -> (res: Resources)
    requires
        gpiob.port == Port::B,
        gpiob.pins@[BUTTON_INDEX as int] is Some,
        gpioc.port == Port::C,
        gpioc.pins@[LED_INDEX as int] is Some,
    ensures
        res.button@ == button_pin(),
        res.led@ == led_pin(),
{
    let mut gpiob = gpiob;
    let mut gpioc = gpioc;
    let pb11 = match gpiob.take(BUTTON_INDEX) {
        Some(pin) => pin,
        None => vstd::pervasive::unreached(),
    };
    let pc13 = match gpioc.take(LED_INDEX) {
        Some(pin) => pin,
        None => vstd::pervasive::unreached(),
    };
    let button = pb11.into_mode(Mode::Input(Pull::PullUp));
    let led = pc13.into_mode(Mode::Output(OutputType::PushPull));
    Resources { button, led }
}

/// One run of the button check: the level to drive the LED to, given the
/// level read from the button's pin. The LED lights while the button is
/// pressed, that is while its input reads low.
pub fn button_check(button: PinState) -> (led: PinState)
    ensures
        led == opposite(button),
        button == PinState::Low <==> led == PinState::High,
        button == PinState::High <==> led == PinState::Low,
{
    match button {
        PinState::Low => PinState::High,
        PinState::High => PinState::Low,
    }
}

} // verus!

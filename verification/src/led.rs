use vstd::prelude::*;
use crate::gpio::{Mode, OutputType, Parts, Pin, PinId, Port};
use core::ops::{Deref, DerefMut};

verus! {

/// Port of the only LED on the board.
pub const LED_PORT: Port = Port::C;

/// Number, within its port, of the pin that drives the only LED on the board.
pub const LED_INDEX: u8 = 13;

/// What the LED's pin is: PC13, configured as a push-pull output.
pub open spec fn led_pin() -> PinId {
    PinId { port: LED_PORT, index: LED_INDEX, mode: Mode::Output(OutputType::PushPull) }
}

/// The pin that drives the only LED on the board: PC13 configured as a
/// push-pull output.
pub struct LedPin {
    pin: Pin,
}

impl View for LedPin {
    type V = PinId;

    closed spec fn view(&self) -> PinId {
        self.pin@
    }
}

impl LedPin {
    #[verifier::type_invariant]
    spec fn is_led_pin(self) -> bool {
        self.pin@ == led_pin()
    }

    /// The port of the pin.
    pub fn port(&self) -> (port: Port)
        ensures
            port == self@.port,
            self@ == led_pin(),
    {
        proof {
            use_type_invariant(self);
        }
        self.pin.port()
    }

    /// The number of the pin within its port.
    pub fn index(&self) -> (index: u8)
        ensures
            index == self@.index,
            self@ == led_pin(),
    {
        proof {
            use_type_invariant(self);
        }
        self.pin.index()
    }

    /// The mode the pin is configured in.
    pub fn mode(&self) -> (mode: Mode)
        ensures
            mode == self@.mode,
            self@ == led_pin(),
    {
        proof {
            use_type_invariant(self);
        }
        self.pin.mode()
    }

    /// What the pin is: its port, its number and its mode.
    pub fn id(&self) -> (id: PinId)
        ensures
            id == self@,
            id == led_pin(),
    {
        proof {
            use_type_invariant(self);
        }
        PinId { port: self.pin.port(), index: self.pin.index(), mode: self.pin.mode() }
    }
}

/// Abstraction for the only LED on the board
pub struct Led {
    pcx: LedPin,
}

impl View for Led {
    type V = PinId;

    closed spec fn view(&self) -> PinId {
        self.pcx@
    }
}

impl Led {
    /// Builds the LED from the parts of port C: takes PC13 out of them and
    /// configures it as a push-pull output.
    pub fn new(gpioc: Parts) -> (led: Led)
        requires
            gpioc.port == Port::C,
            gpioc.pins@[LED_INDEX as int] is Some,
        ensures
            led@ == led_pin(),
    {
        let mut gpioc = gpioc;
        match gpioc.take(LED_INDEX) {
            Some(pc13) => pc13.into_mode(Mode::Output(OutputType::PushPull)).into_led(),
            None => vstd::pervasive::unreached(),
        }
    }

    /// What the LED's pin is. Every LED, whatever was written through its
    /// pin, stands for PC13 configured as a push-pull output.
    pub fn pin_id(&self) -> (id: PinId)
        ensures
            id == self@,
            id == led_pin(),
    {
        self.pcx.id()
    }
}

impl Pin {
    /// The LED that this pin drives; the pin must be PC13 configured as a
    /// push-pull output.
    pub fn into_led(self) -> (led: Led)
        requires
            self@ == led_pin(),
        ensures
            led@ == self@,
    {
        Led { pcx: LedPin { pin: self } }
    }
}

impl Deref for Led {
    type Target = LedPin;

    fn deref(&self) -> (pin: &LedPin)
        ensures
            pin@ == self@,
            self@ == led_pin(),
    {
        proof {
            use_type_invariant(&self.pcx);
        }
        &self.pcx
    }
}

impl DerefMut for Led {
    fn deref_mut(&mut self) -> (pin: &mut LedPin)
        ensures
            pin@ == old(self)@,
            old(self)@ == led_pin(),
            final(self)@ == final(pin)@,
    {
        proof {
            use_type_invariant(&self.pcx);
        }
        &mut self.pcx
    }
}

} // verus!

use vstd::prelude::*;

verus! {

/// Number of pins that one GPIO port of the STM32F303 has.
pub const PINS_PER_PORT: u8 = 16;

/// A GPIO port of the STM32F303.
#[derive(Clone, Copy, PartialEq, Eq, Structural, Debug)]
pub enum Port {
    A,
    B,
    C,
    D,
    E,
    F,
}

/// Pull resistor of an input pin.
#[derive(Clone, Copy, PartialEq, Eq, Structural, Debug)]
pub enum Pull {
    Floating,
    PullUp,
    PullDown,
}

/// Driver of an output pin.
#[derive(Clone, Copy, PartialEq, Eq, Structural, Debug)]
pub enum OutputType {
    PushPull,
    OpenDrain,
}

/// Alternate function that a pin is handed to.
#[derive(Clone, Copy, PartialEq, Eq, Structural, Debug)]
pub enum AlternateFunction {
    AF0,
    AF1,
    AF2,
    AF3,
    AF4,
    AF5,
    AF6,
    AF7,
    AF8,
    AF9,
    AF10,
    AF11,
    AF12,
    AF13,
    AF14,
    AF15,
}

/// The mode a pin is configured in.
#[derive(Clone, Copy, PartialEq, Eq, Structural, Debug)]
pub enum Mode {
    Input(Pull),
    Output(OutputType),
    Alternate(AlternateFunction),
}

/// Logic level of a pin.
#[derive(Clone, Copy, PartialEq, Eq, Structural, Debug)]
pub enum PinState {
    Low,
    High,
}

/// The other level.
pub open spec fn opposite(level: PinState) -> PinState {
    match level {
        PinState::Low => PinState::High,
        PinState::High => PinState::Low,
    }
}

/// What a pin is: its port, its number within the port and its mode.
#[derive(Clone, Copy, PartialEq, Eq, Structural, Debug)]
pub struct PinId {
    pub port: Port,
    pub index: u8,
    pub mode: Mode,
}

/// A GPIO pin whose number within its port is held at run time.
pub struct Pin {
    port: Port,
    index: u8,
    mode: Mode,
}

impl View for Pin {
    type V = PinId;

    closed spec fn view(&self) -> PinId {
        PinId { port: self.port, index: self.index, mode: self.mode }
    }
}

impl Pin {
    #[verifier::type_invariant]
    spec fn index_in_port(self) -> bool {
        self.index < PINS_PER_PORT
    }

    /// The pin `index` of `port`, in `mode`; `None` where the port has no
    /// such pin.
    pub fn new(port: Port, index: u8, mode: Mode) -> (pin: Option<Pin>)
        ensures
            index < PINS_PER_PORT <==> pin is Some,
            pin matches Some(p) ==> p@ == (PinId { port, index, mode }),
    {
        if index < PINS_PER_PORT {
            Some(Pin { port, index, mode })
        } else {
            None
        }
    }

    /// The port of the pin.
    pub fn port(&self) -> (port: Port)
        ensures
            port == self@.port,
    {
        self.port
    }

    /// The number of the pin within its port.
    pub fn index(&self) -> (index: u8)
        ensures
            index == self@.index,
            index < PINS_PER_PORT,
    {
        proof {
            use_type_invariant(self);
        }
        self.index
    }

    /// The mode the pin is configured in.
    pub fn mode(&self) -> (mode: Mode)
        ensures
            mode == self@.mode,
    {
        self.mode
    }

    /// The same pin, configured in `mode`.
    pub fn into_mode(self, mode: Mode) -> (pin: Pin)
        ensures
            pin@ == (PinId { mode, ..self@ }),
    {
        proof {
            use_type_invariant(&self);
        }
        Pin { mode, ..self }
    }
}

/// The pins of one port that have not been taken out yet, each with the mode
/// it is configured in (`None` for a pin already taken), as the port hands
/// them out once it has been split.
pub struct Parts {
    pub port: Port,
    pub pins: [Option<Mode>; 16],
}

impl Parts {
    /// Takes pin `index` out of the parts, in the mode it is configured in;
    /// `None` where that pin has been taken out before.
    pub fn take(&mut self, index: u8) -> (pin: Option<Pin>)
        requires
            index < PINS_PER_PORT,
        ensures
            final(self).port == old(self).port,
            final(self).pins@ == old(self).pins@.update(index as int, None),
            old(self).pins@[index as int] is None <==> pin is None,
            pin matches Some(p) ==> old(self).pins@[index as int] == Some(p@.mode)
                && p@.port == old(self).port && p@.index == index,
    {
        let i: usize = index as usize;
        let slot: Option<Mode> = self.pins[i];
        self.pins[i] = None;
        match slot {
            Some(mode) => Some(Pin { port: self.port, index, mode }),
            None => None,
        }
    }
}

} // verus!

use proton_c::gpio::{Mode, OutputType, Parts, Pin, PinId, Port, Pull};
use proton_c::led::{Led, LedPin, LED_INDEX, LED_PORT};

fn port_c_after_reset() -> Parts {
    Parts { port: Port::C, pins: [Some(Mode::Input(Pull::Floating)); 16] }
}

#[test]
fn new_drives_pc13_as_push_pull_output() {
    let led = Led::new(port_c_after_reset());
    assert_eq!(led.port(), Port::C);
    assert_eq!(led.index(), 13);
    assert_eq!(led.mode(), Mode::Output(OutputType::PushPull));
}

#[test]
fn new_reconfigures_whatever_mode_pc13_had() {
    let mut pins = [Some(Mode::Input(Pull::PullUp)); 16];
    pins[13] = Some(Mode::Output(OutputType::OpenDrain));
    let led = Led::new(Parts { port: Port::C, pins });
    assert_eq!(led.mode(), Mode::Output(OutputType::PushPull));
    assert_eq!(led.index(), LED_INDEX);
    assert_eq!(led.port(), LED_PORT);
}

#[test]
fn into_led_keeps_the_pin() {
    let pin = Pin::new(Port::C, 13, Mode::Output(OutputType::PushPull)).unwrap();
    let led = pin.into_led();
    assert_eq!(led.port(), Port::C);
    assert_eq!(led.index(), 13);
    assert_eq!(led.mode(), Mode::Output(OutputType::PushPull));
}

#[test]
fn new_agrees_with_into_led() {
    let a = Led::new(port_c_after_reset());
    let b = Pin::new(Port::C, 13, Mode::Output(OutputType::PushPull)).unwrap().into_led();
    assert_eq!((a.port(), a.index(), a.mode()), (b.port(), b.index(), b.mode()));
}

#[test]
fn pin_id_of_the_led() {
    let led = Led::new(port_c_after_reset());
    let expected = PinId { port: Port::C, index: 13, mode: Mode::Output(OutputType::PushPull) };
    assert_eq!(led.pin_id(), expected);
    assert_eq!(led.id(), expected);
}

#[test]
fn deref_mut_keeps_the_led_on_pc13() {
    let mut a = Led::new(port_c_after_reset());
    let mut b = Pin::new(Port::C, 13, Mode::Output(OutputType::PushPull)).unwrap().into_led();
    let pin: &mut LedPin = &mut a;
    assert_eq!(pin.index(), 13);
    std::mem::swap(pin, &mut *b);
    assert_eq!((a.port(), a.index(), a.mode()), (Port::C, 13, Mode::Output(OutputType::PushPull)));
    assert_eq!((b.port(), b.index(), b.mode()), (Port::C, 13, Mode::Output(OutputType::PushPull)));
    assert_eq!(a.pin_id(), b.pin_id());
}

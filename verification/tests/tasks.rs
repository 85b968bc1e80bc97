use proton_c::blinky::{led_toggle, PERIOD};
use proton_c::button::{button_check, init, BUTTON_INDEX};
use proton_c::gpio::{Mode, OutputType, Parts, PinState, Port, Pull};
use proton_c::keyboard::{keyboard_report, KEY_A, REPORT_LEN};
use proton_c::serial::{echo_upper, reply};

#[test]
fn pressed_button_lights_the_led() {
    assert_eq!(button_check(PinState::Low), PinState::High);
}

#[test]
fn released_button_turns_the_led_off() {
    assert_eq!(button_check(PinState::High), PinState::Low);
}

#[test]
fn init_configures_button_and_led() {
    let gpiob = Parts { port: Port::B, pins: [Some(Mode::Input(Pull::Floating)); 16] };
    let gpioc = Parts { port: Port::C, pins: [Some(Mode::Input(Pull::Floating)); 16] };
    let res = init(gpiob, gpioc);
    assert_eq!((res.button.port(), res.button.index(), res.button.mode()), (Port::B, BUTTON_INDEX, Mode::Input(Pull::PullUp)));
    assert_eq!(BUTTON_INDEX, 11);
    assert_eq!((res.led.port(), res.led.index(), res.led.mode()), (Port::C, 13, Mode::Output(OutputType::PushPull)));
}

#[test]
fn toggle_switches_the_level() {
    assert_eq!(led_toggle(PinState::Low), PinState::High);
    assert_eq!(led_toggle(PinState::High), PinState::Low);
    assert_eq!(led_toggle(led_toggle(PinState::Low)), PinState::Low);
    assert_eq!(PERIOD, 2_000_000);
}

#[test]
fn keyboard_types_a_while_pressed() {
    assert_eq!(keyboard_report(true), [0, 0, 4, 0, 0, 0, 0, 0]);
    assert_eq!(keyboard_report(false), [0u8; 8]);
    assert_eq!(KEY_A, 4);
    assert_eq!(REPORT_LEN, 8);
}

#[test]
fn echo_upper_cases_letters_only() {
    assert_eq!(echo_upper(b"hello, World! az{`@"), b"HELLO, WORLD! AZ{`@".to_vec());
    assert_eq!(echo_upper(&[0x00, 0x61, 0x7a, 0x7b, 0x60, 0xe1, 0xff]), vec![0x00, 0x41, 0x5a, 0x7b, 0x60, 0xe1, 0xff]);
}

#[test]
fn echo_twice_is_echo_once() {
    let once = echo_upper(b"MixEd 123 caSe");
    assert_eq!(echo_upper(&once), once);
}

#[test]
fn reply_sends_nothing_for_nothing_read() {
    assert_eq!(reply(&[]), None);
    assert_eq!(reply(b"ping"), Some(b"PING".to_vec()));
}

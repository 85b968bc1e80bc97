# proton_c

Board support for the Proton-C (STM32F303), verified with Verus.

- `src/gpio.rs`: the pins of the chip's GPIO ports as plain values (port,
  number, mode) and the parts a port hands its pins out from.
- `src/led.rs`: the on-board LED, which is always PC13 as a push-pull output.
- `src/button.rs`, `src/blinky.rs`, `src/serial.rs`, `src/keyboard.rs`: the
  decisions the firmware programs take (LED follows the button, LED toggles,
  serial input echoed in upper case, keyboard report for the single key).
- `app/main.rs`: the firmware that drives the pins through the HAL and asks
  the library what to do.

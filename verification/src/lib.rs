//! Board support for the Proton-C (STM32F303): its on-board LED and the
//! decisions that the firmware takes around it.

pub mod gpio;
pub mod led;
pub mod button;
pub mod blinky;
pub mod serial;
pub mod keyboard;

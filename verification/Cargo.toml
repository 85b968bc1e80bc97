[package]
name = "proton_c"
version = "0.1.0"
edition = "2021"
publish = false

[dependencies]
cortex-m-rtfm = { version = "=0.4.3", features = ["timer-queue"] }
embedded-hal = { version = "=0.2.7", features = ["unproven"] }
panic-semihosting = "=0.5.6"
stm32f3xx-hal = { version = "=0.3.0", features = ["stm32f303", "rt"] }

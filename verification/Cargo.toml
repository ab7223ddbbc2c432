[package]
name = "nucleo_rust"
version = "0.1.0"
edition = "2021"
publish = false

[dependencies]
stm32f4xx-hal = { version = "0.8", features = ["stm32f401", "rt"] }
cortex-m-rt = "0.6"
cortex-m-semihosting = "0.3"
embedded-hal = "0.2"
panic-halt = "0.2"

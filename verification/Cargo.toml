[package]
name = "bmi160"
version = "0.1.0"
edition = "2021"
publish = false

[dependencies]
embedded-hal = "0.2"
cortex-m-semihosting = "0.3"

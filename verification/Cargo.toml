[package]
name = "dac_timer"
version = "0.1.0"
edition = "2021"
publish = false

[dependencies]
fugit = "0.3"
stm32f7xx-hal = { version = "*", features = ["stm32f767", "rt"] }
cortex-m-rt = "*"
critical-section = "*"

[package]
name = "mcu_core"
version = "0.1.0"
edition = "2021"

[dependencies]
cortex-m = "0.7"
cortex-m-rt = "0.7"
panic-halt = "*"
stm32f4 = { version = "*", features = ["stm32f401"] }

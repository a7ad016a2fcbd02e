[package]
name = "async_spi"
version = "0.1.0"
edition = "2021"
publish = false

[dependencies]
cortex-m-rt = "=0.6.15"
stm32l4xx-hal = { version = "=0.6.0", features = ["stm32l4x6", "rt"] }

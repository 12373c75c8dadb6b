[package]
name = "eccprobe"
version = "0.1.0"
edition = "2021"
publish = false

[dependencies]
cortex-m = "0.7"
cortex-m-rt = "0.7"
static_assertions = "1"
stm32l4 = { version = "0.15", features = ["stm32l4r5"] }

[package]
name = "moonlight_os"
version = "0.1.0"
edition = "2021"
publish = false

[dependencies]
bit_field = "0.10"
bootloader = "0.9"
lazy_static = { version = "1", features = ["spin_no_std"] }
pc-keyboard = "0.5"
pic8259 = { version = "0.10", default-features = false }
volatile = "0.2"
x86_64 = { version = "0.14", default-features = false, features = ["instructions"] }

[package]
name = "rust_os"
version = "0.1.0"
edition = "2021"
publish = false

[dependencies]
pc-keyboard = "0.5"
x86_64 = "0.14"
pic8259 = "0.10"
spin = "0.5"
lazy_static = { version = "1", features = ["spin_no_std"] }
bootloader = "0.9"

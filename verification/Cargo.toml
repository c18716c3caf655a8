[package]
name = "simple_os"
version = "0.1.0"
edition = "2021"
publish = false

[dependencies]
x86_64 = { version = "0.14.2", default-features = false, features = ["instructions"] }
pic8259 = { version = "0.10.1", default-features = false }
pc-keyboard = "0.7.0"
uart_16550 = { version = "0.2.0", default-features = false }
volatile = "0.2.6"
spin = "0.5.2"
lazy_static = { version = "1.0", features = ["spin_no_std"] }

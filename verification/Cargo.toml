[package]
name = "krust"
version = "0.1.0"
edition = "2021"
publish = false

[dependencies]
heapless = "0.7"
pc-keyboard = "*"
lazy_static = "*"
spin = "*"
x86_64 = "*"
pic8259_simple = "*"
volatile = "*"

[package]
name = "st7789"
version = "0.1.0"
edition = "2021"
publish = false

[dependencies]
display-interface = "0.4"
display-interface-spi = "0.4"
embedded-graphics-core = "0.3"
embedded-hal = "0.2"
num-traits = "0.2"

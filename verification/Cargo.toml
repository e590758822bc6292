[package]
name = "co2_monitor"
version = "0.1.0"
edition = "2021"
publish = false

[dependencies]
embedded-hal = "*"
embedded-hal-bus = "*"
embedded-graphics = "*"
epd-waveshare = "*"
u8g2-fonts = "*"
heapless = "*"

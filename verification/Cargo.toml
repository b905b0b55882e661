[package]
name = "faderpunk"
version = "0.1.0"
edition = "2021"
publish = false

[dependencies]
midly = { version = "0.5", default-features = false }
heapless = "0.8"
smart-leds = "0.4"
embassy-futures = "*"
embassy-sync = "*"
embassy-time = "*"
embassy-usb = "*"
embedded-io-async = "*"
libm = "0.2"
max11300 = "*"
portable-atomic = "1"
postcard = "1"
serde = { version = "1", default-features = false, features = ["derive"] }
ws2812-async = "*"

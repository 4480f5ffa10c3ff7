[package]
name = "autoscroll"
version = "0.1.0"
edition = "2021"
publish = false

[dependencies]
evdev = "=0.12.2"
uinput = { version = "=0.1.3", default-features = false }

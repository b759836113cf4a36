[package]
name = "xwm_selection"
version = "0.1.0"
edition = "2021"
publish = false

[dependencies]
calloop = "0.14"
rustix = { version = "1", features = ["event", "fs", "pipe", "time"] }
smallvec = "1"
tracing = "0.1"
x11rb = { version = "0.13", features = ["xfixes"] }

[package]
name = "annotator"
version = "0.1.0"
edition = "2021"
publish = false

[dependencies]
image = { version = "0.24", default-features = false, features = ["jpeg"] }
fltk = "1"
tray-item = "0.7"
core-graphics = "0.22"

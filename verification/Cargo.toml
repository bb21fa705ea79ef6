[package]
name = "shoelace_ui"
version = "0.1.0"
edition = "2021"
publish = false

[dependencies]
iced = { version = "=0.14.0", default-features = false, features = ["advanced", "tiny-skia", "x11", "thread-pool"] }
iced_core = "=0.14.0"
iced_widget = "=0.14.2"

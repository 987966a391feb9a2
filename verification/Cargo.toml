[package]
name = "antiafk"
version = "0.2.0"
edition = "2021"
publish = false

[dependencies]
serde = { version = "1", features = ["derive"] }
serde_json = "1"
dirs = "5"
evdev = "0.13"
notify-rust = "4"
gtk4 = "0.7"
glib = "0.18"

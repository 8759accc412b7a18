[package]
name = "libkoompi"
version = "0.1.0"
edition = "2021"
publish = false

[dependencies]
dbus = "*"
dirs = "*"
dirs-next = "*"
freedesktop_entry_parser = "*"
futures = "*"
futures-cpupool = "*"
getset = "*"
itertools = "*"
lazy_static = "*"
libmath = "*"
libpulse-binding = "*"
libpulse-sys = "*"
mime_guess = "*"
regex = "*"
serde = { version = "*", features = ["derive"] }
titlecase = "*"
tokio-timer = "*"
toml = "*"
udev = "*"

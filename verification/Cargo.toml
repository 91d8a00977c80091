[package]
name = "snip"
version = "0.1.0"
edition = "2021"
publish = false

[dependencies]
two-face = "=0.5.2"
syntect = { version = "=5.3.0", default-features = false }
nucleo-matcher = "=0.3.1"
unicode-width = "=0.2.3"
uuid = "=1.29.0"
shlex = "=2.0.1"
toml = "=1.1.8"
serde = { version = "=1.0.229", features = ["derive"] }
clap = { version = "=4.6.7", features = ["derive"] }
arboard = "=3.7.0"
notify = "=8.2.1"
notify-debouncer-mini = "=0.7.0"

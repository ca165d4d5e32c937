[package]
name = "hadlock"
version = "0.1.0"
edition = "2021"
publish = false

[dependencies]
indexmap = "=2.14.2"
serde = { version = "=1.0.229", features = ["derive"] }
serde_json = "=1.0.154"
x11-dl = "=2.21.0"
x11 = { version = "=2.21.0", features = ["xlib"] }
reducer = "=3.0.1"
lazy_static = "=1.5.1"
log = "=0.4.35"
fern = "=0.7.1"
chrono = "=0.4.45"
nix = { version = "=0.31.3", features = ["signal", "time"] }
libc = "=0.2.191"
bitflags = "=2.13.2"
derivative = "=2.2.0"
notify-rust = "=4.18.2"

[package]
name = "nes_core"
version = "0.1.0"
edition = "2021"
publish = false

[dependencies]
xxhash-rust = { version = "0.8", features = ["xxh3"] }
postcard = { version = "1", features = ["alloc"] }
serde = { version = "1", features = ["derive"] }
serde_json = "1"
thiserror = "2"
bitflags = "2"
log = "0.4"
env_logger = "*"
crossbeam-channel = "0.5"
triple_buffer = "*"
rtrb = "*"
cpal = "*"
eframe = { version = "*", default-features = false, features = ["glow", "default_fonts", "x11"] }
rfd = "*"

[package]
name = "lotwire"
version = "0.1.0"
edition = "2021"
publish = false

[dependencies]
ringbuffer = "*"
rocket = { version = "0.5", features = ["json"] }
log = "0.4"
config = "*"
lazy_static = "1"
serde = { version = "1", features = ["derive"] }

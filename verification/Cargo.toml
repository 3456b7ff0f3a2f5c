[package]
name = "transport"
version = "0.1.0"
edition = "2021"
publish = false

[dependencies]
libsystemd = "*"
mio = { version = "*", features = ["net", "os-poll", "os-ext"] }
nix = { version = "*", features = ["fs", "socket", "net"] }

[dev-dependencies]
tempfile = "*"

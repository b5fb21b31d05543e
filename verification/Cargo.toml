[package]
name = "contest_greeter"
version = "0.1.0"
edition = "2021"
publish = false

[dependencies]
anyhow = "=1.0.104"
chrono = { version = "=0.4.45", features = ["serde"] }
env_logger = { version = "=0.11.11", default-features = false }
greetd_ipc = { version = "=0.10.3", features = ["sync-codec"] }
iced = { version = "=0.14.0", default-features = false, features = ["tokio", "tiny-skia", "x11", "wayland"] }
libc = "=0.2.191"
local-ip-address = "=0.6.13"
log = "=0.4.34"
rust-ini = "=0.21.3"
serde = { version = "=1.0.229", features = ["derive"] }
tokio = { version = "1", features = ["rt", "rt-multi-thread", "macros", "sync", "time"] }
toml = "=1.1.8"
ureq = { version = "=3.5.0", features = ["json"] }
zbus = { version = "5", default-features = false, features = ["tokio"] }

[package]
name = "rustkvm"
version = "0.1.0"
edition = "2021"
publish = false

[dependencies]
anyhow = "=1.0.104"
base64 = "=0.22.1"
bcrypt = "=0.19.3"
clap = { version = "=4.6.7", features = ["derive", "env"] }
hex = "=0.4.3"
httpdate = "=1.0.3"
if-addrs = "=0.15.0"
libc = "=0.2.191"
once_cell = "=1.21.4"
parking_lot = "=0.13.0"
rustix = { version = "=1.1.6", features = ["fs", "system"] }
serde = { version = "=1.0.229", features = ["derive"] }
serde_json = "=1.0.154"
toml = "=1.1.8"
tokio = { version = "=1.54.1", features = ["rt-multi-thread", "macros", "fs", "time", "sync", "signal", "io-util", "net"] }
tracing = "=0.1.44"
tracing-subscriber = { version = "=0.3.23", features = ["env-filter", "json"] }
uuid = { version = "=1.29.0", features = ["v4"] }

[package]
name = "tano"
version = "0.1.0"
edition = "2021"
publish = false

[dependencies]
sqlx = { version = "*", default-features = false, features = ["sqlite", "runtime-tokio", "macros", "derive", "migrate"] }
tokio = { version = "*", features = ["rt-multi-thread", "macros", "sync", "fs", "signal", "time"] }
tokio-stream = "*"
serde = { version = "*", features = ["derive"] }
toml = "*"
bitflags = "*"
color-eyre = "*"
crossterm = { version = "*", features = ["event-stream"] }
directories = "*"
libc = "*"
lofty = "*"
shellexpand = "*"

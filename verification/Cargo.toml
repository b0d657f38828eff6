[package]
name = "otpc"
version = "0.1.0"
edition = "2021"
publish = false

[dependencies]
hmac-sha1 = "=0.2.2"
unicode-width = "=0.1.14"
serde = { version = "=1.0.229", features = ["derive"] }
serde_json = "=1.0.154"
dirs = "=7.0.0"
arboard = { version = "=3.7.0", default-features = false }
termion = "=1.5.6"
tui = { version = "=0.19.0", default-features = false, features = ["termion"] }
clap = { version = "=4.6.7", features = ["derive"] }

[package]
name = "chatr_server"
version = "0.1.0"
edition = "2021"
publish = false

[dependencies]
anyhow = "1"
clap = { version = "4", features = ["derive"] }
oneshot = "0.1"
rustls = { version = "0.23", default-features = false, features = ["ring", "std"] }
socket2 = "0.5"
tokio = { version = "1", features = ["rt-multi-thread", "macros", "net", "io-util", "sync"] }
tokio-rustls = { version = "0.26", default-features = false, features = ["ring"] }

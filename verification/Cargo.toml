[package]
name = "raw-socket"
version = "0.1.0"
edition = "2021"
publish = false

[dependencies]
socket2 = "0.3"
futures-core = "0.3"
libc = "0.2"
mio = "0.6"
tokio = { version = "0.2", features = ["io-driver", "dns"] }

[package]
name = "torbind"
version = "0.1.0"
edition = "2021"
publish = false

[dependencies]
tokio = { version = "=1.53.2", features = ["sync", "rt-multi-thread", "macros", "time"] }

[dev-dependencies]
tor-persist = "=0.47.0"

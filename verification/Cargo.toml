[package]
name = "backend"
version = "0.1.0"
edition = "2021"
publish = false

[dependencies]
sha2 = "=0.10.9"
anyhow = "=1.0.104"
openssh = { version = "=0.11.6", features = ["native-mux"] }
tokio = { version = "=1.54.1", features = ["fs", "io-util", "macros", "process", "rt-multi-thread", "signal", "time"] }
tracing = "=0.1.44"
tracing-subscriber = "=0.3.23"

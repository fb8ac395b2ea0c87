[package]
name = "remi_capture"
version = "0.1.0"
edition = "2021"
publish = false

[dependencies]
image = "0.24"
chrono = "0.4"
clap = { version = "4", features = ["derive"] }
futures = "0.3"
native-dialog = "*"
rascam = "*"
tokio = { version = "1", features = ["macros", "rt-multi-thread", "time", "fs", "io-util"] }
tracing = "0.1"
tracing-subscriber = "0.3"

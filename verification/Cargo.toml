[package]
name = "slang-bridge"
version = "0.1.0"
edition = "2021"
publish = false

[dependencies]
ash = "0.38"
axum = { version = "0.7", features = ["ws"] }
clap = { version = "4", features = ["derive"] }
futures-util = "0.3"
jni = "0.21"
ndk-sys = "0.6"
prost = "0.13"
tokio = { version = "1", features = ["full"] }
tokio-tungstenite = "0.24"
tracing = "0.1"
tracing-subscriber = "0.3"

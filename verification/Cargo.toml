[package]
name = "romeo"
version = "0.1.0"
edition = "2021"
publish = false

[dependencies]
httparse = "1"
serde = { version = "1", features = ["derive"] }
tokio = { version = "1", features = ["net", "io-util", "rt-multi-thread", "macros"] }

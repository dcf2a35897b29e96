[package]
name = "youtube_dl"
version = "0.10.0"
edition = "2021"
publish = false

[dependencies]
tokio = { version = "1", features = ["fs", "io-util", "process", "time", "rt"] }
wait-timeout = "0.2"
reqwest = { version = "0.12", default-features = false, features = ["rustls-tls"] }

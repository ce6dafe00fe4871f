[package]
name = "pimple"
version = "0.1.0"
edition = "2021"
publish = false

[dependencies]
base64 = "*"
clap = { version = "*", features = ["derive", "env"] }
futures = "*"
home = "*"
reqwest = { version = "*", default-features = false, features = ["json"] }
serde = { version = "*", features = ["derive"] }
serde_json = "*"
tokio = { version = "*", features = ["rt-multi-thread", "io-std", "io-util", "process", "time"] }
uuid = { version = "*", features = ["v4"] }

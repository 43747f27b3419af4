[package]
name = "ssh_containerd"
version = "0.1.0"
edition = "2021"
publish = false

[dependencies]
urlencoding = "*"
bollard = "*"
tokio = { version = "*", features = ["macros", "rt-multi-thread", "time", "fs", "io-util", "io-std", "sync"] }
futures-util = "*"
termion = "*"
serde = { version = "*", features = ["derive"] }
serde_json = "*"
toml = "*"
uuid = { version = "*", features = ["v4"] }

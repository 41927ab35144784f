[package]
name = "portr"
version = "0.1.0"
edition = "2021"
publish = false

[dependencies]
nix = { version = "*", features = ["signal", "user"] }
sysinfo = "*"
bollard = "*"
tokio = { version = "*", features = ["rt"] }
serde = { version = "*", features = ["derive"] }
serde_json = "*"

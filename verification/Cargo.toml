[package]
name = "connwatch"
version = "0.1.0"
edition = "2021"
publish = false

[dependencies]
anyhow = "*"
clap = { version = "*", features = ["derive"] }
reqwest = { version = "*", default-features = false }
tokio = { version = "*", features = ["macros", "rt", "time"] }
tokio-stream = "*"
zbus = { version = "*", default-features = false, features = ["tokio"] }

[package]
name = "homer"
version = "0.1.0"
edition = "2021"
publish = false

[dependencies]
anyhow = "1"
directories = "*"
dirs-sys = "*"
futures-util = "0.3"
indicatif = "0.17"
inquire = "*"
reqwest = { version = "*", features = ["stream"] }
serde = { version = "1", features = ["derive"] }
serde_json = "1"
serde_yaml = "0.9"
tokio = { version = "1", features = ["macros", "rt-multi-thread"] }
zip-extract = "*"

[package]
name = "rust_gpt"
version = "0.1.0"
edition = "2021"
publish = false

[dependencies]
serde = { version = "*", features = ["derive"] }
serde_json = "*"
reqwest = { version = "*", default-features = false }
tokio = { version = "*", features = ["sync", "rt"] }
once_cell = "*"
async-trait = "*"

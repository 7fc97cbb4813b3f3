[package]
name = "text_delivery"
version = "0.1.0"
edition = "2021"
publish = false

[dependencies]
arboard = "*"
rdev = "*"
tokio = { version = "*", features = ["rt-multi-thread", "macros"] }
serde = { version = "*", features = ["derive"] }
serde_json = "*"
thiserror = "*"
once_cell = "*"
async-trait = "*"
reqwest = { version = "*", default-features = false }

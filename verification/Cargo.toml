[package]
name = "cheesy_money_lib"
version = "0.1.0"
edition = "2021"
publish = false

[dependencies]
serde = { version = "1", features = ["derive"] }
thiserror = "2"
tauri = { version = "2", default-features = false }

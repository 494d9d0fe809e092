[package]
name = "office_convert_client"
version = "0.1.0"
edition = "2021"
publish = false

[dependencies]
tokio = { version = "1", features = ["rt-multi-thread", "macros", "sync", "time"] }
reqwest = { version = "0.12", default-features = false, features = ["multipart", "json"] }
serde = { version = "1", features = ["derive"] }
bytes = "1"
thiserror = "1"
async-trait = "0.1"

[package]
name = "cid_client"
version = "0.1.0"
edition = "2021"
publish = false

[dependencies]
url = "2"
governor = "0.6"
reqwest = { version = "0.12", default-features = false, features = ["json", "stream"] }
serde = { version = "1", features = ["derive"] }
serde_yaml = "0.9"
thiserror = "1"
directories = "5"
tokio = { version = "1", features = ["time"] }

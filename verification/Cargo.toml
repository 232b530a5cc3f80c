[package]
name = "teamdeck"
version = "0.1.0"
edition = "2021"
publish = false

[dependencies]
serde_json = "1"
url = "2"
reqwest = { version = "0.12", default-features = false, features = ["blocking"] }
async-trait = "0.1"
chrono = { version = "0.4", default-features = false, features = ["clock"] }
thiserror = "1"

[package]
name = "placename_relay"
version = "0.1.0"
edition = "2021"
publish = false

[dependencies]
serde_json = "=1.0.151"
urlencoding = "=2.1.3"
serde = { version = "=1.0.229", features = ["derive"] }
once_cell = "=1.21.4"
reqwest = { version = "=0.13.5", default-features = false, features = ["json"] }

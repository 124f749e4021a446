[package]
name = "tidal_client"
version = "0.1.0"
edition = "2021"
publish = false

[dependencies]
base64 = "=0.23.1"
chrono = "=0.4.45"
dotenv = "=0.15.0"
reqwest = { version = "=0.13.5", default-features = false, features = ["blocking", "form"] }
serde = { version = "=1.0.229", features = ["derive"] }
serde_json = "=1.0.151"

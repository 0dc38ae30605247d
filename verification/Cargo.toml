[package]
name = "mpd_cover"
version = "0.1.0"
edition = "2021"
publish = false

[dependencies]
datetime = "=0.5.2"
serde = { version = "=1.0.229", features = ["derive"] }
serde_json = "=1.0.151"
toml = "=1.1.6"
reqwest = { version = "=0.13.5", default-features = false, features = ["blocking", "json", "form", "query"] }
log = "=0.4.34"
simplelog = "=0.12.2"

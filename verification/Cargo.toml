[package]
name = "signoz_cli"
version = "0.1.0"
edition = "2021"
publish = false

[dependencies]
serde_json = "=1.0.151"
urlencoding = "=2.1.3"
url = "=2.5.8"
form_urlencoded = "=1.2.2"
serde = { version = "=1.0.229", features = ["derive"] }
clap = { version = "=4.6.7", features = ["string"] }
reqwest = { version = "=0.13.5", default-features = false, features = ["blocking", "json"] }
anyhow = "=1.0.104"

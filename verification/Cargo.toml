[package]
name = "autocampnet"
version = "0.1.0"
edition = "2021"
publish = false

[dependencies]
regex = "1"
tl = "0.7"
serde = { version = "1", features = ["derive"] }
serde_json = "1"
reqwest = { version = "0.11", default-features = false, features = ["blocking", "rustls-tls"] }
chrono = "0.4"
timer = "0.2"
auto-launch = "0.5"

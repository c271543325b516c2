[package]
name = "horizon_exporter"
version = "1.0.0"
edition = "2021"
publish = false

[dependencies]
chrono = "0.4"
fern = "0.6"
getopts = "0.2"
log = "0.4"
prometheus = { version = "0.13", default-features = false }
reqwest = { version = "0.11", default-features = false, features = ["blocking", "rustls-tls"] }
serde = { version = "1", features = ["derive"] }
serde_json = "1"
serde_yaml = "0.9"
simple-error = "*"
tiny_http = "0.12"
urlencoding = "2"

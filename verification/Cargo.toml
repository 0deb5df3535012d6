[package]
name = "dioscuri"
version = "0.1.0"
edition = "2021"
publish = false

[dependencies]
crossterm = "0.28"
ratatui = { version = "0.29", features = ["unstable-rendered-line-info"] }
rustls = { version = "0.23", default-features = false, features = ["ring", "std", "tls12"] }
thiserror = "2"
url = "2"
webpki-roots = "0.26"

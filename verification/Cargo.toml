[package]
name = "ffh"
version = "0.1.0"
edition = "2021"
publish = false

[dependencies]
actix-web = { version = "=4.15.0", features = ["openssl"] }
actix-files = "=0.7.0"
actix-rt = "=2.15.0"
futures = "*"
openssl = "=0.10.81"
serde = { version = "=1.0.229", features = ["derive"] }

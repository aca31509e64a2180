[package]
name = "matrix_api"
version = "0.1.0"
edition = "2021"
publish = false

[dependencies]
url = "=2.5.8"
serde = { version = "=1.0.229", features = ["derive"] }
serde_json = "=1.0.151"
toml = "=1.1.6"
thiserror = "=2.0.21"
actix-web = { version = "=4.15.0", default-features = false, features = ["macros"] }
tokio = { version = "=1.53.2", features = ["rt-multi-thread", "macros", "time"] }
matrix-sdk = { version = "=0.7.1", default-features = false, features = ["rustls-tls"] }

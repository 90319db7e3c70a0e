[package]
name = "oidc_login"
version = "0.1.0"
edition = "2021"
publish = false

[dependencies]
chrono = "=0.4.45"
hex = "=0.4.3"
hmac = "=0.11.0"
jwt = "=0.15.0"
log = "=0.4.34"
reqwest = { version = "=0.11.27", features = ["cookies"] }
rocket = { version = "=0.5.2", features = ["uuid"] }
rocket_cors = "=0.6.0"
rocket-include-tera = "=0.6.0"
serde = { version = "=1.0.229", features = ["derive"] }
serde_derive = "=1.0.229"
serde_json = "=1.0.154"
sha2 = "=0.9.9"
thiserror = "=1.0.69"
urlencoding = "=2.1.3"
uuid = { version = "=1.29.0", features = ["v4"] }

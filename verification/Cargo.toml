[package]
name = "account_session"
version = "0.1.0"
edition = "2021"
publish = false

[dependencies]
bcrypt = "=0.19.3"
hmac = "=0.12.1"
sha2 = "=0.10.9"
serde = { version = "=1.0.229", features = ["derive"] }
tokio = { version = "=1.54.1", features = ["sync"] }
warp = { version = "=0.3.7", default-features = false }
juniper = { version = "=0.16.2", default-features = false }
juniper_warp = "=0.8.0"
tide = { version = "=0.16.0", default-features = false, features = ["h1-server"] }
sqlx = { version = "=0.9.0", default-features = false, features = ["runtime-async-std", "postgres"] }

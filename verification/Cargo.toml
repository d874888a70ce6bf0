[package]
name = "biometric_gateway"
version = "0.1.0"
edition = "2021"
publish = false

[dependencies]
serde = { version = "1", features = ["derive"] }
serde_json = "1"
tokio = { version = "1", features = ["macros", "rt-multi-thread", "sync", "time"] }
rumqttc = { version = "*", default-features = false }
redis = { version = "*", default-features = false, features = ["aio", "tokio-comp"] }
sqlx = { version = "*", default-features = false, features = ["runtime-tokio", "postgres"] }
dotenv = "0.15"
log = "0.4"

[package]
name = "auth_gateway"
version = "0.1.0"
edition = "2021"
publish = false

[dependencies]
argon2 = "0.5"
axum = "0.6"
axum-extra = { version = "0.8", features = ["cookie"] }
chrono = { version = "0.4", features = ["serde"] }
dotenv = "0.15"
jsonwebtoken = "9"
rand_core = { version = "0.6", features = ["std"] }
serde = { version = "1", features = ["derive"] }
serde_json = "1"
sqlx = { version = "0.7", default-features = false, features = ["runtime-tokio", "tls-rustls", "postgres", "chrono"] }
tiberius = { version = "0.12", default-features = false, features = ["tds73", "rustls"] }
time = "0.3"
tokio = { version = "1", features = ["rt-multi-thread", "macros", "net", "sync"] }
tokio-util = { version = "0.7", features = ["compat"] }
tower-http = { version = "0.4", features = ["cors", "fs"] }

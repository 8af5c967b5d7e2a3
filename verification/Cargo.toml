[package]
name = "fiscal_core"
version = "0.1.0"
edition = "2021"
publish = false

[dependencies]
rust_decimal = "=1.43.0"
rust_decimal_macros = "=1.40.0"
roxmltree = "=0.20.0"
sha2 = "=0.10.9"
base64 = "=0.22.1"
openssl = "=0.10.82"
chrono = { version = "=0.4.45", features = ["serde"] }
uuid = { version = "=1.29.0", features = ["v4", "serde"] }
rand = "=0.8.8"
argon2 = "=0.5.3"
jsonwebtoken = "=9.3.1"
serde = { version = "=1.0.229", features = ["derive"] }
serde_json = "=1.0.154"
sqlx = { version = "=0.8.6", default-features = false, features = ["postgres", "runtime-tokio", "chrono", "uuid", "rust_decimal", "json", "derive"] }
tokio = { version = "=1.54.1", features = ["rt-multi-thread", "macros", "fs", "process", "net", "time", "io-util"] }
reqwest = { version = "=0.12.28", default-features = false, features = ["json"] }
image = { version = "=0.25.10", default-features = false, features = ["jpeg"] }
anyhow = "=1.0.104"
thiserror = "=1.0.69"
tracing = "=0.1.44"
zeroize = "=1.9.1"

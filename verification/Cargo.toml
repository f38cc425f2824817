[package]
name = "cryptoally_api"
version = "0.1.0"
edition = "2021"
publish = false

[dependencies]
async-trait = "=0.1.92"
axum = "=0.8.9"
chrono = { version = "=0.4.45", default-features = false, features = ["clock", "std", "serde"] }
once_cell = "=1.21.4"
rust_decimal = { version = "=1.43.0", features = ["serde-with-str"] }
serde = { version = "=1.0.229", features = ["derive"] }
serde_json = "=1.0.154"
sha2 = "=0.10.9"
sqlx = { version = "=0.8.6", default-features = false, features = ["postgres", "runtime-tokio", "chrono", "rust_decimal", "macros"] }
tokio = { version = "=1.54.1", features = ["macros", "rt-multi-thread"] }
tower = { version = "=0.5.3", features = ["util"] }
vercel_runtime = { version = "=2.4.1", features = ["axum"] }

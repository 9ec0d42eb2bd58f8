[package]
name = "shuttlings-cch24"
version = "0.1.0"
edition = "2021"
publish = false

[dependencies]
actix-files = "0.6"
actix-multipart = "0.7"
actix-web = { version = "4", default-features = false, features = ["macros", "cookies"] }
cargo-manifest = "0.17"
chrono = { version = "0.4", default-features = false, features = ["serde"] }
jsonwebtoken = "9"
leaky-bucket = "1"
rand = "0.8"
serde = { version = "1", features = ["derive"] }
serde_json = "1"
serde_yaml = "0.9"
sqlx = { version = "0.8", default-features = false, features = ["postgres", "runtime-tokio", "uuid", "chrono", "macros", "migrate"] }
tera = { version = "1", default-features = false }
tokio = "1"
toml = "0.8"
uuid = { version = "1", features = ["v4", "serde"] }

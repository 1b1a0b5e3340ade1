[package]
name = "airy"
version = "0.1.0"
edition = "2021"
publish = false

[dependencies]
chrono = "0.4"
rust_decimal = "1"
serde_json = "1"
uuid = "1"
serde = { version = "1", features = ["derive"] }
sqlx = { version = "0.8", default-features = false, features = ["mysql", "postgres", "runtime-tokio", "chrono", "uuid", "rust_decimal", "json"] }
thiserror = "2"
tokio = { version = "1", features = ["full"] }
rmcp = { version = "0.1", features = ["server", "transport-sse-server", "transport-io"] }
openai-api-rs = "6"
reqwest = { version = "0.12", features = ["json"] }
clap = { version = "4", features = ["derive", "env"] }
owo-colors = { version = "4", features = ["supports-colors"] }
async-trait = "0.1"
serde-sqlx = "*"

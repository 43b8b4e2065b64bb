[package]
name = "business-service"
version = "0.1.0"
edition = "2021"
publish = false

[dependencies]
uuid = { version = "1", features = ["v4", "serde"] }
chrono = { version = "0.4", features = ["serde"] }
serde = { version = "1", features = ["derive"] }
serde_json = "1"
thiserror = "1"
dotenv = "0.15"
tracing = "0.1"
tracing-subscriber = { version = "0.3", features = ["env-filter"] }
futures-util = "0.3"
async-trait = "0.1"
actix-web = { version = "4", default-features = false, features = ["macros"] }
sqlx = { version = "*", default-features = false, features = ["postgres", "runtime-tokio", "chrono", "uuid"] }
mongodb = "2"

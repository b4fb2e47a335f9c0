[package]
name = "smart_loan_recovery"
version = "0.1.0"
edition = "2021"
publish = false

[dependencies]
actix-identity = "*"
actix-session = { version = "*", features = ["cookie-session"] }
actix-web = { version = "4", default-features = false, features = ["macros", "cookies", "secure-cookies"] }
chrono = { version = "0.4", features = ["serde"] }
clap = { version = "4", features = ["derive"] }
dotenv = "0.15"
env_logger = "*"
log = "0.4"
rusqlite = { version = "*", features = ["bundled"] }
serde = { version = "1", features = ["derive"] }
serde_json = "1"
thiserror = "1"
uuid = { version = "1", features = ["v4", "serde"] }

[package]
name = "backend"
version = "0.1.0"
edition = "2021"
publish = false

[dependencies]
actix-web = { version = "4", default-features = false, features = ["macros"] }
bcrypt = "0.15"
chrono = "0.4"
dotenv = "0.15"
env_logger = "0.11"
jsonwebtoken = "9"
lazy_static = "1"
lettre = { version = "0.11", default-features = false, features = ["builder", "smtp-transport", "rustls-tls"] }
rand = "0.8"
redis = "0.27"
regex = "1"
sea-orm = { version = "1", default-features = false, features = ["macros", "with-chrono"] }
serde = { version = "1", features = ["derive"] }
serde_json = { version = "1", features = ["raw_value"] }
thiserror = "1"
validator = "0.18"

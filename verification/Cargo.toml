[package]
name = "violet"
version = "0.1.0"
edition = "2021"
publish = false

[dependencies]
actix-cors = "*"
actix-web = "4"
chrono = "0.4"
cuid = "1"
env_logger = { version = "*", default-features = false }
figment = { version = "0.10", features = ["toml", "env"] }
futures = "0.3"
isahc = "1"
jsonwebtoken = "8"
log = "0.4"
mysql = "*"
regex = "1"
serde = { version = "1", features = ["derive"] }
serde_json = "1"
serde_repr = "0.1"
sha3 = "0.10"
sql-builder = "3"
sqlx = { version = "0.6", features = ["mysql", "runtime-actix-rustls"] }
tokio = { version = "1", features = ["macros", "rt-multi-thread"] }

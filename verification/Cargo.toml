[package]
name = "bookstore"
version = "0.1.0"
edition = "2021"
publish = false

[dependencies]
chrono = { version = "=0.4.45", features = ["serde"] }
rand = "=0.8.8"
jsonwebtoken = "=8.3.0"
argon2 = "=0.5.3"
serde = { version = "=1.0.229", features = ["derive"] }
serde_json = "=1.0.154"
serde_repr = "=0.1.21"
serde_with = "=3.24.0"
actix-web = { version = "=4.18.1", default-features = false, features = ["macros"] }
actix-cors = "=0.6.5"
sea-orm = { version = "=0.11.3", default-features = false, features = ["macros", "with-chrono"] }
utoipa = { version = "=3.5.0", features = ["actix_extras", "chrono"] }
async-trait = "=0.1.92"
pin-project = "=1.1.13"
either = "=1.19.0"
once_cell = "=1.21.4"
log = "=0.4.34"
env_logger = "=0.10.2"
dotenv = "=0.15.0"
utoipa-swagger-ui = { version = "3", features = ["actix-web"] }
redis = { version = "0.23", features = ["tokio-comp"] }
tokio = { version = "1", features = ["sync"] }
mimalloc = "0.1"

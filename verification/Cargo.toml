[package]
name = "todo_auth"
version = "0.1.0"
edition = "2021"
publish = false

[dependencies]
bcrypt = "=0.19.3"
jsonwebtoken = { version = "=11.1.0", features = ["rust_crypto"] }
validator = "=0.21.0"
serde = { version = "=1.0.229", features = ["derive"] }
serde_json = "=1.0.151"
actix-web = "=4.15.0"
actix-cors = "=0.7.2"
chrono = { version = "=0.4.45", features = ["serde"] }
sqlx = { version = "=0.9.0", features = ["mysql", "chrono", "migrate", "runtime-tokio"] }
dotenv = "=0.15.0"
env_logger = "=0.11.11"
log = "=0.4.34"

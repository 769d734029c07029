[package]
name = "aquafarm"
version = "0.1.0"
edition = "2021"
publish = false

[dependencies]
actix-cors = "0.7"
actix-web = { version = "4", default-features = false, features = ["macros"] }
bcrypt = "0.15"
chrono = { version = "0.4", default-features = false, features = ["clock", "std", "serde"] }
dotenv = "0.15"
jsonwebtoken = { version = "9", default-features = false }
serde = { version = "1", features = ["derive"] }
serde_json = "1"
sqlx = { version = "0.8", default-features = false, features = ["mysql", "runtime-tokio", "derive", "chrono"] }

[package]
name = "staff_records"
version = "0.1.0"
edition = "2021"
publish = false

[dependencies]
actix-multipart = "0.6"
actix-web = "4"
argon2 = "0.5"
aws-config = { version = "1", default-features = false, features = ["rt-tokio", "behavior-version-latest"] }
aws-sdk-s3 = { version = "1", default-features = false, features = ["rt-tokio", "behavior-version-latest"] }
aws-types = "1"
chrono = { version = "0.4", features = ["serde"] }
dotenv = "0.15"
env_logger = "0.11"
futures-util = "0.3"
infer = "*"
jsonwebtoken = { version = "9", default-features = false }
log = "0.4"
rand = "0.8"
serde = { version = "1", features = ["derive"] }
serde_json = "1"
sqlx = { version = "0.8", default-features = false, features = ["postgres", "runtime-tokio", "uuid", "chrono"] }
time = "0.3"
url = "2"
uuid = { version = "1", features = ["v4", "serde"] }
validator = "0.16"

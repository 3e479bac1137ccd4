[package]
name = "tee_verifier"
version = "0.1.0"
edition = "2021"
publish = false

[dependencies]
sha2 = "*"
dcap-qvl = "*"
hex = "*"
serde = { version = "*", features = ["derive"] }
serde_json = "*"
serde_with = { version = "*", features = ["base64", "macros"] }
axum = "*"
tokio = { version = "*", features = ["full"] }
dotenv = "*"
dstack-sdk-types = "*"

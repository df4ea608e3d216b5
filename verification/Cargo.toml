[package]
name = "cursor_pagination"
version = "0.1.0"
edition = "2021"
publish = false

[dependencies]
actix-cors = "*"
actix-web = "*"
base64 = "0.13"
deadpool-postgres = "*"
dotenv = "*"
futures-util = "*"
serde = { version = "1", features = ["derive"] }
tokio-postgres = "*"

[package]
name = "screen_text_reader"
version = "0.1.0"
edition = "2021"
publish = false

[dependencies]
actix-cors = "*"
actix-web = { version = "*", default-features = false, features = ["macros"] }
anyhow = "*"
chrono = "*"
env_logger = { version = "*", default-features = false }
image = { version = "*", default-features = false, features = ["png"] }
log = "*"
scopeguard = "*"
serde = { version = "*", features = ["derive"] }
tesseract = "*"
tokio = { version = "*", features = ["rt"] }

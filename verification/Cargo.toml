[package]
name = "city_chat_bot"
version = "0.1.0"
edition = "2021"
publish = false
rust-version = "1.95"

[dependencies]
actix = "=0.13.5"
actix-files = "=0.6.10"
actix-web = "=4.18.1"
actix-web-actors = "=4.3.1"
chrono = "=0.4.45"
chrono-tz = "=0.10.4"
dotenv = "0.15"
env_logger = "0.11"
log = "0.4"
once_cell = "1"
regex = "=1.13.1"
reqwest = { version = "=0.12.28", default-features = false, features = ["json", "rustls-tls"] }
serde = { version = "1", features = ["derive"] }
serde_json = "1"
# A dependency of teloxide's, held back: its later versions need rustc 1.96.
takecell = "=0.1.1"
teloxide = { version = "=0.17.0", default-features = false, features = ["macros", "ctrlc_handler", "rustls"] }
tokio = { version = "1", features = ["full"] }
toml = "0.8"

[package]
name = "revolt_delta"
version = "0.1.0"
edition = "2021"
publish = false

[dependencies]
cached = { version = "*", features = ["async", "proc_macro"] }
config = { version = "0.13", default-features = false, features = ["toml"] }
dotenv = "0.15"
futures = "0.3"
futures-locks = "0.7"
log = "0.4"
mongodb = "*"
once_cell = "1"
pretty_env_logger = "0.4"
rocket = { version = "0.5", features = ["json"] }
sentry = { version = "*", default-features = false }
serde = { version = "1", features = ["derive"] }

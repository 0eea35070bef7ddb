[package]
name = "media-server-1"
version = "0.1.0"
edition = "2021"
publish = false

[dependencies]
actix-files = "0.5"
actix-service = "1"
actix-web = { version = "3", default-features = false }
dirs = "3"
dotenv = "0.15"
error-chain = "0.12"
futures = "0.3"
lazy_static = "1"
log = "0.4"
log4rs = "1"
path-slash = "0.1"
percent-encoding = "2"
regex = "1"
serde = { version = "1", features = ["derive"] }
toml = "0.5"

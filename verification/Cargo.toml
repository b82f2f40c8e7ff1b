[package]
name = "post_archive"
version = "0.1.0"
edition = "2021"
publish = false

[dependencies]
actix = "0.13"
actix-rt = "2"
async-std = "1"
chrono = "0.4"
dotenvy = "0.15"
env_logger = "0.10"
futures = "0.3"
glob = "0.3"
log = "0.4"
photon-rs = "0.3"
serde = { version = "1", features = ["derive"] }
tera = "1"
unidecode = "0.3"

[dev-dependencies]
regex = "1"

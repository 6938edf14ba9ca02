[package]
name = "microbin"
version = "0.1.0"
edition = "2021"
publish = false

[dependencies]
actix-files = "=0.6.10"
actix-multipart = "=0.7.2"
actix-web = { version = "=4.18.1", default-features = false, features = ["macros", "cookies"] }
ammonia = "=4.2.4"
askama = "=0.12.1"
bytesize = { version = "=1.3.3", features = ["serde"] }
chrono = "=0.4.45"
comrak = { version = "=0.44.0", default-features = false }
futures = "=0.3.34"
html-escape = "=0.2.15"
linkify = "=0.10.0"
log = "=0.4.34"
magic-crypt = "=3.1.13"
mime_guess = "=2.0.5"
qrcode-generator = { version = "=4.1.9", default-features = false }
rand = "=0.8.8"
rust-s3 = "=0.35.1"
serde = { version = "=1.0.229", features = ["derive"] }
serde_json = "=1.0.154"
sha2 = "=0.10.9"

[package]
name = "avif_convert"
version = "0.1.0"
edition = "2021"
publish = false

[dependencies]
actix-files = "0.6"
actix-web = "4"
anyhow = "1"
image = "0.25"
ravif = { version = "0.11", default-features = false, features = ["threading"] }
reqwest = "0.12"
rgb = "0.8"

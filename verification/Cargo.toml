[package]
name = "core_dump_composer"
version = "0.1.0"
edition = "2021"
publish = false

[dependencies]
advisory-lock = "*"
anyhow = "*"
dotenv = "*"
flate2 = "*"
libcrio = "*"
log = "*"
serde_json = "*"
tar = "*"

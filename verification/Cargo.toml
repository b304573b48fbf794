[package]
name = "upder"
version = "0.1.0"
edition = "2021"
publish = false

[dependencies]
anyhow = "1"
indicatif = "0.15"
isahc = { version = "0.9", default-features = false }
structopt = "0.3"
sys-info = "0.9"

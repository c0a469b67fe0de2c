[package]
name = "dustr"
version = "0.1.0"
edition = "2021"
publish = false

[dependencies]
syn = { version = "1", features = ["full"] }
darling = "0.10"
ffishim = "*"
cargo_toml = "*"
anyhow = "1"

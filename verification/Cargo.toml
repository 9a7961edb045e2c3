[package]
name = "futuresdr"
version = "0.1.0"
edition = "2021"
publish = false

[dependencies]
anyhow = "1"
config = { version = "*", default-features = false, features = ["toml"] }
dirs = "*"
libc = "0.2"
log = "0.4"
once_cell = "1"
serde = { version = "1", features = ["derive"] }
vec-arena = "*"

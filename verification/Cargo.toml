[package]
name = "sala"
version = "1.4.0"
edition = "2021"
publish = false

[dependencies]
atty = "0.2"
clap = "2"
dirs = "2"
nix = "0.15"
rand = "0.6"
rpassword = "3"
serde = { version = "1", features = ["derive"] }
shell-words = "0.1"
toml = "0.5"

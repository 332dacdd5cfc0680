[package]
name = "wald"
version = "0.1.0"
edition = "2021"
publish = false

[dependencies]
anyhow = "1"
clap = { version = "4", features = ["derive"] }
clap_complete = "4"
getrandom = "0.2"
git2 = { version = "*", default-features = false }
hex = "0.4"
serde = { version = "1", features = ["derive"] }
serde_json = "1"
serde_yml = "*"
thiserror = "*"
walkdir = "2"

[package]
name = "midna"
version = "0.1.0"
edition = "2021"
publish = false

[dependencies]
serde_json = "*"
clap = "*"
colored = "*"
dirs = "*"
git2 = { version = "*", default-features = false }
glob = "*"
reqwest = { version = "*", default-features = false, features = ["blocking"] }

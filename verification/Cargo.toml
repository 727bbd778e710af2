[package]
name = "cargo-update-installed"
version = "0.1.0"
edition = "2021"
publish = false

[dependencies]
anyhow = "=1.0.104"
clap = { version = "=4.6.7", features = ["derive"] }
dirs = "=7.0.0"
glob = "=0.3.4"
is-terminal = "=0.4.17"
serde = { version = "=1.0.229", features = ["derive"] }
serde_json = "=1.0.154"
termcolor = "=1.4.1"
url = "=2.5.8"

[dev-dependencies]
regex = "1"

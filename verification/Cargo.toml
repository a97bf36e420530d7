[package]
name = "repo"
version = "0.1.0"
edition = "2021"
publish = false

[dependencies]
serde_json = "=1.0.151"
semver = "=1.0.28"
serde = { version = "=1.0.229", features = ["derive"] }
clap = { version = "=4.6.7", features = ["derive"] }
clap_complete = "=4.6.11"
cargo_metadata = "=0.23.1"
colored = "=3.1.1"
edit = "=0.1.5"
opener = { version = "=0.9.0", features = ["reveal"] }
printable-shell-command = "=0.2.5"
schemars = "=1.2.2"

[package]
name = "seren"
version = "0.1.0"
edition = "2021"
publish = false

[dependencies]
chrono = "0.4"
fern = { version = "0.6", features = ["colored"] }
log = "0.4"
serde = { version = "1", features = ["derive"] }
serde_yaml = "0.8"
structopt = "0.3"
tap = "1"
termion = "1.5"

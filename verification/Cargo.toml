[package]
name = "templater"
version = "0.1.0"
edition = "2021"
publish = false

[dependencies]
anyhow = "1"
chrono = "0.4"
clap = { version = "4", features = ["derive"] }
colog = "1"
dirs = "*"
flate2 = "1"
globset = "0.4"
log = "0.4"
pretty-bytes = "*"
prettytable-rs = "*"
serde = { version = "1", features = ["derive"] }
serde_json = "1"
sled = { version = "0.34", features = ["compression"] }
tar = "0.4"
tempfile = "3"
thiserror = "*"
walkdir = "2"

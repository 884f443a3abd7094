[package]
name = "photostamp"
version = "0.1.0"
edition = "2021"
publish = false

[dependencies]
chrono = "*"
clap = { version = "*", features = ["derive"] }
kamadak-exif = "*"
filetime = "*"
log = "*"
pretty_env_logger = "*"
rayon = "*"
walkdir = "*"

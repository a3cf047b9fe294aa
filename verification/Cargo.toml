[package]
name = "heaven_on_earth"
version = "0.1.0"
edition = "2021"
publish = false

[dependencies]
clap = "*"
dirs = "*"
immeta = "*"
job_scheduler = "*"
log = "*"
meval = "*"
rand = "*"
reqwest = { version = "*", default-features = false, features = ["blocking"] }
serde = { version = "*", features = ["derive"] }
serde_json = "*"
simplelog = "*"
wallpaper = "*"

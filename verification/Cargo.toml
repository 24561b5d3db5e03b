[package]
name = "yt"
version = "0.1.0"
edition = "2021"
publish = false

[dependencies]
crossterm = "*"
homedir = "0.2"
image = "*"
inquire = "*"
pad = "0.1"
rand = "0.8"
seahorse = "*"
serde = { version = "1", features = ["derive"] }
serde_json = "1"
tinyget = { version = "*", features = ["https"] }
viuer = "*"
